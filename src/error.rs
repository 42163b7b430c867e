//! The error kinds of the channel, and how the failures reported by the
//! cryptographic engine fall into them.

use vstd::prelude::*;

verus! {

/// Every failure of the channel is exactly one of these.
#[derive(Clone, Copy, Debug, PartialEq, Eq, Structural)]
pub enum NoiseError {
    /// The cipher suite or the key material given at construction is unusable.
    Configuration,
    /// An operation was invoked out of the required sequence.
    ProtocolViolation,
    /// A message has the wrong length or is truncated.
    MalformedMessage,
    /// An AEAD tag did not verify.
    AuthenticationFailed,
    /// The sending nonce counter has reached its maximum.
    NonceExhausted,
}

/// The text that describes an error.
pub open spec fn text_of(e: NoiseError) -> Seq<char> {
    match e {
        NoiseError::Configuration => "configuration error"@,
        NoiseError::ProtocolViolation => "protocol violation"@,
        NoiseError::MalformedMessage => "malformed message"@,
        NoiseError::AuthenticationFailed => "authentication failed"@,
        NoiseError::NonceExhausted => "nonce exhausted"@,
    }
}

impl NoiseError {
    /// A short description of the error.
    pub fn message(&self) -> (r: String)
        ensures
            r@ == text_of(*self),
    {
        let r = match self {
            NoiseError::Configuration => String::from_str("configuration error"),
            NoiseError::ProtocolViolation => String::from_str("protocol violation"),
            NoiseError::MalformedMessage => String::from_str("malformed message"),
            NoiseError::AuthenticationFailed => String::from_str("authentication failed"),
            NoiseError::NonceExhausted => String::from_str("nonce exhausted"),
        };
        r
    }
}

/// The state problems that the engine reports.
#[derive(Clone, Copy, Debug, PartialEq, Eq, Structural)]
pub enum StateIssue {
    MissingKeyMaterial,
    MissingPsk,
    NotTurnToWrite,
    NotTurnToRead,
    HandshakeNotFinished,
    HandshakeAlreadyFinished,
    OneWay,
    StatelessTransportMode,
    Exhausted,
}

/// A failure reported by the engine, by its kind.
#[derive(Clone, Copy, Debug, PartialEq, Eq, Structural)]
pub enum EngineFailure {
    Pattern,
    Init,
    Prereq,
    State(StateIssue),
    Input,
    Dh,
    Decrypt,
    /// A kind that this library does not know of.
    Other,
}

/// The error kind that an engine failure stands for.
pub open spec fn kind_of(f: EngineFailure) -> NoiseError {
    match f {
        EngineFailure::Pattern | EngineFailure::Init | EngineFailure::Prereq
            | EngineFailure::Other => NoiseError::Configuration,
        EngineFailure::State(StateIssue::Exhausted) => NoiseError::NonceExhausted,
        EngineFailure::State(_) => NoiseError::ProtocolViolation,
        EngineFailure::Input | EngineFailure::Dh => NoiseError::MalformedMessage,
        EngineFailure::Decrypt => NoiseError::AuthenticationFailed,
    }
}

/// Sorts an engine failure into the channel's error kinds.
pub fn classify(f: EngineFailure) -> (r: NoiseError)
    ensures
        r == kind_of(f),
{
    match f {
        EngineFailure::Pattern | EngineFailure::Init | EngineFailure::Prereq
            | EngineFailure::Other => NoiseError::Configuration,
        EngineFailure::State(StateIssue::Exhausted) => NoiseError::NonceExhausted,
        EngineFailure::State(_) => NoiseError::ProtocolViolation,
        EngineFailure::Input | EngineFailure::Dh => NoiseError::MalformedMessage,
        EngineFailure::Decrypt => NoiseError::AuthenticationFailed,
    }
}

} // verus!
