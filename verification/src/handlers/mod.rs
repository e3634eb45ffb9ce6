//! The computations behind the web interface's pages and API answers.
pub mod api;
pub mod pages;
