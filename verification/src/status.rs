//! Clamping of a requested HTTP status code to the legal range.

use vstd::prelude::*;

verus! {

/// The status code that the server answers with when a request asks for
/// `requested`: codes strictly between 200 and 600 pass through unchanged,
/// everything else is replaced by 200.
pub open spec fn normalize_spec(requested: u16) -> u16 {
    if 200 < requested < 600 {
        requested
    } else {
        200u16
    }
}

/// Clamp a requested status code to the range the server is willing to emit.
///
/// Requesting 200 itself is answered with 200 through the clamping branch,
/// indistinguishable from a clamped out-of-range request; that ambiguity is
/// deliberate.
pub fn normalize(requested: u16) -> (status: u16)
    ensures
        status == normalize_spec(requested),
        200 < requested < 600 ==> status == requested,
        !(200 < requested < 600) ==> status == 200,
{
    if requested > 200 && requested < 600 {
        requested
    } else {
        200
    }
}

} // verus!
