//! The renderers of audit reports. JSON is written by `serde_json` from a
//! serializable copy of the report outside this library.
pub mod html;
pub mod markdown;
