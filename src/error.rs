//! The failures of the companion-process subsystem, each kept apart so that a
//! caller can tell a rejected request from a broken contract.

use vstd::prelude::*;

verus! {

#[derive(Clone, Debug, PartialEq, Eq)]
pub enum SidecarError {
    /// The companion executable could not be resolved or started; holds the
    /// launcher's description.
    Launch(String),
    /// The companion never answered a probe healthily within the bound.
    ReadinessTimeout,
    /// A request to the companion failed in transport; holds its description.
    Transport(String),
    /// The companion answered with a non-success status; holds the body.
    Protocol(String),
    /// A success answer did not fit the expected structure; holds why.
    Schema(String),
}

/// The text that a caller shows for an error.
pub open spec fn error_message(e: SidecarError) -> Seq<char> {
    match e {
        SidecarError::Launch(d) => "Failed to spawn sidecar: "@ + d@,
        SidecarError::ReadinessTimeout => "Agent failed to start within timeout"@,
        SidecarError::Transport(d) => "Failed to send request to agent: "@ + d@,
        SidecarError::Protocol(b) => "Agent returned error: "@ + b@,
        SidecarError::Schema(d) => "Failed to parse agent response: "@ + d@,
    }
}

impl SidecarError {
    /// The text that a caller shows for this error.
    pub fn message(&self) -> (r: String)
        ensures
            r@ == error_message(*self),
    {
        match self {
            SidecarError::Launch(d) => String::from_str("Failed to spawn sidecar: ").concat(d.as_str()),
            SidecarError::ReadinessTimeout => String::from_str("Agent failed to start within timeout"),
            SidecarError::Transport(d) => String::from_str("Failed to send request to agent: ").concat(
                d.as_str(),
            ),
            SidecarError::Protocol(b) => String::from_str("Agent returned error: ").concat(b.as_str()),
            SidecarError::Schema(d) => String::from_str("Failed to parse agent response: ").concat(
                d.as_str(),
            ),
        }
    }
}

} // verus!
