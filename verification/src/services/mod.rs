//! The services behind the web interface: its state, the assembly of audit
//! reports and the connection settings.
pub mod app_state;
pub mod audit_runner;
pub mod kube_ui;
