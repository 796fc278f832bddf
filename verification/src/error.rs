//! What can go wrong in a session.

use vstd::prelude::*;

verus! {

/// Why a call on a session failed. Every error is fatal to the session.
#[derive(Clone, Copy, Debug, PartialEq, Eq, Structural)]
pub enum ProtocolError {
    /// The envelope bytes do not decode.
    MalformedFrame,
    /// The bytes that open a session do not decode.
    MalformedInit,
    /// A peer's payload is not what the round expects.
    MalformedPeerMessage,
    /// The round function rejected its inputs.
    CryptoFailure,
    /// The session was advanced after its last round.
    ProtocolFinished,
    /// The artifact was asked for before the last round.
    ProtocolNotFinished,
    /// A persisted session does not pass validation.
    CorruptState,
    /// A persisted group descriptor does not pass validation.
    CorruptGroup,
}

impl ProtocolError {
    /// The error in words, for a host that takes strings.
    pub open spec fn spec_message(self) -> Seq<char> {
        match self {
            ProtocolError::MalformedFrame => "malformed frame"@,
            ProtocolError::MalformedInit => "malformed init message"@,
            ProtocolError::MalformedPeerMessage => "malformed peer message"@,
            ProtocolError::CryptoFailure => "round function failed"@,
            ProtocolError::ProtocolFinished => "protocol finished"@,
            ProtocolError::ProtocolNotFinished => "protocol not finished"@,
            ProtocolError::CorruptState => "corrupt state"@,
            ProtocolError::CorruptGroup => "corrupt group"@,
        }
    }

    /// The error in words.
    pub fn message(self) -> (s: String)
        ensures
            s@ == self.spec_message(),
    {
        match self {
            ProtocolError::MalformedFrame => "malformed frame".to_owned(),
            ProtocolError::MalformedInit => "malformed init message".to_owned(),
            ProtocolError::MalformedPeerMessage => "malformed peer message".to_owned(),
            ProtocolError::CryptoFailure => "round function failed".to_owned(),
            ProtocolError::ProtocolFinished => "protocol finished".to_owned(),
            ProtocolError::ProtocolNotFinished => "protocol not finished".to_owned(),
            ProtocolError::CorruptState => "corrupt state".to_owned(),
            ProtocolError::CorruptGroup => "corrupt group".to_owned(),
        }
    }
}

/// Why a round function gave no result.
#[derive(Clone, Copy, Debug, PartialEq, Eq, Structural)]
pub enum RoundError {
    /// A peer's payload is not what the round expects.
    MalformedPeerMessage,
    /// The round function rejected its inputs.
    CryptoFailure,
}

impl RoundError {
    /// The session error that a round's failure surfaces as.
    pub open spec fn spec_surface(self) -> ProtocolError {
        match self {
            RoundError::MalformedPeerMessage => ProtocolError::MalformedPeerMessage,
            RoundError::CryptoFailure => ProtocolError::CryptoFailure,
        }
    }

    /// The session error that a round's failure surfaces as.
    pub fn surface(self) -> (e: ProtocolError)
        ensures
            e == self.spec_surface(),
    {
        match self {
            RoundError::MalformedPeerMessage => ProtocolError::MalformedPeerMessage,
            RoundError::CryptoFailure => ProtocolError::CryptoFailure,
        }
    }
}

} // verus!
