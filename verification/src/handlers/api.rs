//! The answers of the web interface's API.
use vstd::prelude::*;
use crate::text::{opt_text, owned};

verus! {

/// The answer to an API call that starts work.
#[derive(Debug)]
pub struct ApiStatus {
    pub ok: bool,
    pub message: String,
    pub scan_id: Option<String>,
}

impl ApiStatus {
    /// The answer to starting a scan: ok, `Scan started`, with the scan's id.
    pub fn scan_started(scan_id: String) -> (r: ApiStatus)
        ensures
            r.ok,
            r.message@ == "Scan started"@,
            opt_text(r.scan_id) == Some(scan_id@),
    {
        ApiStatus { ok: true, message: owned("Scan started"), scan_id: Some(scan_id) }
    }
}

} // verus!
