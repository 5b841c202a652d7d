//! The liveness payload: a fixed status object carrying the build version.

use vstd::prelude::*;
use vstd::string::*;
use crate::detection::{escape_str, spec_escape};

verus! {

/// The liveness body for a version: `{"status":"ok","version":<version>}`,
/// the version escaped as a JSON string.
pub open spec fn spec_status_body(version: Seq<char>) -> Seq<char> {
    "{\"status\":\"ok\",\"version\":\""@ + spec_escape(version) + "\"}"@
}

/// Builds the liveness payload. No inputs beyond the version, no failure
/// modes, no side effects.
pub fn status_body(version: &str) -> (r: String)
    ensures
        r@ == spec_status_body(version@),
{
    let mut out = String::from_str("{\"status\":\"ok\",\"version\":\"");
    let esc = escape_str(version);
    out.append(esc.as_str());
    out.append("\"}");
    out
}

} // verus!
