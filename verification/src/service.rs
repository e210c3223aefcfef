//! The stages that stand in front of the handler, and what they share.

use vstd::prelude::*;
use vstd::string::StringExecFns;

pub mod limit_content_length;
pub mod stringify_body;

verus! {

/// The error of a call that was driven again after it had given its result.
/// Seeing it means that the driver is wrong, not the request.
#[derive(Debug, Clone, Copy, PartialEq, Eq, Structural)]
pub struct PolledAfterComplete;

impl PolledAfterComplete {
    /// The text of this error.
    pub open spec fn message_spec() -> Seq<char> {
        "Internal server error"@
    }

    /// The text of this error.
    pub fn message(&self) -> (text: String)
        ensures
            text@ == Self::message_spec(),
    {
        String::from_str("Internal server error")
    }
}

} // verus!
