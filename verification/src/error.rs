//! Error kinds shared across the media pipeline.

use vstd::prelude::*;

verus! {

/// Error kinds of the media pipeline.
///
/// Parse failures and decoder failures are counted and never stop the
/// pipeline; session-registry errors are returned to the caller verbatim.
#[derive(Clone, Copy, Debug, PartialEq, Eq, Structural)]
pub enum AmwajError {
    /// The datagram is not a well-formed RTP packet (truncated or wrong version).
    MalformedRtp,
    /// The decoder was handed an empty payload.
    EmptyPayload,
    /// The session id is not present in the registry.
    SessionNotFound,
    /// The registry is at capacity even after reaping expired sessions.
    SessionCapacityReached,
    /// The codec failed on a payload.
    DecoderFailure,
    /// The event sink was closed; terminal for the session.
    SinkClosed,
    /// A configuration value was rejected at session creation.
    ConfigInvalid,
}

impl AmwajError {
    /// A short human-readable description of the error kind.
    pub fn message(&self) -> (r: &'static str)
        ensures
            r@.len() > 0,
    {
        let r: &'static str = match self {
            AmwajError::MalformedRtp => "malformed RTP packet",
            AmwajError::EmptyPayload => "empty payload",
            AmwajError::SessionNotFound => "session not found",
            AmwajError::SessionCapacityReached => "maximum session limit reached",
            AmwajError::DecoderFailure => "decoder failure",
            AmwajError::SinkClosed => "event sink closed",
            AmwajError::ConfigInvalid => "invalid configuration",
        };
        proof {
            reveal_strlit("malformed RTP packet");
            reveal_strlit("empty payload");
            reveal_strlit("session not found");
            reveal_strlit("maximum session limit reached");
            reveal_strlit("decoder failure");
            reveal_strlit("event sink closed");
            reveal_strlit("invalid configuration");
        }
        r
    }
}

} // verus!
