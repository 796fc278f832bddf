//! A session of either protocol behind one type: what the host holds, drives
//! round by round, and may put away between two rounds and take up again.

use vstd::prelude::*;
use crate::context::{ProtocolType, RoundOutputType, RoundReply, RoundRequest, RoundRequestView};
use crate::error::{ProtocolError, RoundError};
use crate::framing::spec_unpack;
use crate::group::spec_unseal_group;
use crate::keygen::KeygenContext;
use crate::persist::{
    lemma_unseal_seal,
    spec_unseal,
    unseal,
    KIND_KEYGEN,
    KIND_SIGN,
};
use crate::protocol::Protocol;
use crate::sign::SignContext;

verus! {

/// The threshold schemes that a session can run.
#[derive(Clone, Copy, Debug, PartialEq, Eq, Structural)]
pub enum Algorithm {
    Gg18,
}

/// A session: a key generation or a signing, between two rounds.
pub enum Session {
    Keygen(KeygenContext),
    Sign(SignContext),
}

impl Session {
    /// The protocol that the session runs.
    pub open spec fn spec_protocol(&self) -> ProtocolType {
        match self {
            Session::Keygen(_) => ProtocolType::Keygen,
            Session::Sign(_) => ProtocolType::Sign,
        }
    }

    /// The number of rounds done.
    pub open spec fn spec_round(&self) -> nat {
        match self {
            Session::Keygen(ctx) => ctx.spec_round(),
            Session::Sign(ctx) => ctx.spec_round(),
        }
    }

    /// The bytes that the session holds.
    pub open spec fn spec_carried(&self) -> Seq<u8> {
        match self {
            Session::Keygen(ctx) => ctx.spec_carried(),
            Session::Sign(ctx) => ctx.spec_carried(),
        }
    }

    /// Two sessions are the same where they run the same protocol, have done
    /// as many rounds and hold the same bytes.
    pub open spec fn spec_same(&self, other: &Session) -> bool {
        &&& self.spec_protocol() == other.spec_protocol()
        &&& self.spec_round() == other.spec_round()
        &&& self.spec_carried() == other.spec_carried()
    }

    /// What one round makes of the incoming bytes and of the outcome of its
    /// round function: the bytes the next state holds and the messages that
    /// its envelope holds, or the error.
    pub open spec fn spec_advance(&self, data: Seq<u8>, outcome: Result<RoundReply, RoundError>)
        -> Result<(RoundOutputType<Vec<u8>, Vec<u8>>, Seq<Seq<u8>>), ProtocolError> {
        match self {
            Session::Keygen(ctx) => ctx.spec_advance(data, outcome),
            Session::Sign(ctx) => ctx.spec_advance(data, outcome),
        }
    }

    /// What a sealed session holds: its protocol, the number of rounds done
    /// and the bytes held; or `None` where the blob holds no session. The
    /// rounds must be among those of the protocol, and a key generation
    /// before its first round holds nothing.
    pub open spec fn spec_deserialize(blob: Seq<u8>) -> Option<(ProtocolType, nat, Seq<u8>)> {
        match spec_unseal(blob) {
            None => None,
            Some((kind, round, body)) => if kind == KIND_KEYGEN {
                if KeygenContext::spec_restorable(round, body) {
                    Some((ProtocolType::Keygen, round as nat, body))
                } else {
                    None
                }
            } else if kind == KIND_SIGN {
                if round <= 10 {
                    Some((ProtocolType::Sign, round as nat, body))
                } else {
                    None
                }
            } else {
                None
            },
        }
    }

    /// A key generation before its first round.
    pub fn new(alg: Algorithm) -> (session: Session)
        ensures
            session.spec_protocol() == ProtocolType::Keygen,
            session.spec_round() == 0,
            session.spec_carried() == Seq::<u8>::empty(),
    {
        match alg {
            Algorithm::Gg18 => Session::Keygen(KeygenContext::new()),
        }
    }

    /// A signing of the group that the sealed blob `group` holds, before its
    /// first round.
    pub fn with_group(alg: Algorithm, group: &[u8]) -> (r: Result<Session, ProtocolError>)
        ensures
            match spec_unseal_group(group@) {
                Some(descriptor) => {
                    &&& r is Ok
                    &&& r->Ok_0.spec_protocol() == ProtocolType::Sign
                    &&& r->Ok_0.spec_round() == 0
                    &&& r->Ok_0.spec_carried() == descriptor
                },
                None => r is Err && r->Err_0 == ProtocolError::CorruptGroup,
            },
    {
        match alg {
            Algorithm::Gg18 => match SignContext::new(group) {
                Err(e) => Err(e),
                Ok(ctx) => Ok(Session::Sign(ctx)),
            },
        }
    }

    /// The protocol that the session runs.
    pub fn protocol(&self) -> (p: ProtocolType)
        ensures
            p == self.spec_protocol(),
    {
        match self {
            Session::Keygen(_) => ProtocolType::Keygen,
            Session::Sign(_) => ProtocolType::Sign,
        }
    }

    /// The number of rounds done.
    pub fn round(&self) -> (r: u8)
        ensures
            r == self.spec_round(),
    {
        match self {
            Session::Keygen(ctx) => ctx.round(),
            Session::Sign(ctx) => ctx.round(),
        }
    }

    /// Opens a sealed session. Either all of it comes back or none.
    pub fn deserialize(blob: &[u8]) -> (r: Result<Session, ProtocolError>)
        ensures
            match Self::spec_deserialize(blob@) {
                Some((protocol, round, carried)) => {
                    &&& r is Ok
                    &&& r->Ok_0.spec_protocol() == protocol
                    &&& r->Ok_0.spec_round() == round
                    &&& r->Ok_0.spec_carried() == carried
                },
                None => r is Err && r->Err_0 == ProtocolError::CorruptState,
            },
    {
        match unseal(blob) {
            None => Err(ProtocolError::CorruptState),
            Some((kind, round, body)) => {
                if kind == KIND_KEYGEN {
                    match KeygenContext::restore(round, body) {
                        None => Err(ProtocolError::CorruptState),
                        Some(ctx) => Ok(Session::Keygen(ctx)),
                    }
                } else if kind == KIND_SIGN {
                    match SignContext::restore(round, body) {
                        None => Err(ProtocolError::CorruptState),
                        Some(ctx) => Ok(Session::Sign(ctx)),
                    }
                } else {
                    Err(ProtocolError::CorruptState)
                }
            },
        }
    }
}

impl Protocol for Session {
    open spec fn spec_rounds_done(&self) -> nat {
        self.spec_round()
    }

    open spec fn spec_finished(&self) -> bool {
        match self {
            Session::Keygen(ctx) => ctx.spec_finished(),
            Session::Sign(ctx) => ctx.spec_finished(),
        }
    }

    open spec fn spec_artifact(&self) -> Seq<u8> {
        match self {
            Session::Keygen(ctx) => ctx.spec_artifact(),
            Session::Sign(ctx) => ctx.spec_artifact(),
        }
    }

    open spec fn spec_request(&self, data: Seq<u8>) -> Result<RoundRequestView, ProtocolError> {
        match self {
            Session::Keygen(ctx) => ctx.spec_request(data),
            Session::Sign(ctx) => ctx.spec_request(data),
        }
    }

    open spec fn spec_envelope(&self, data: Seq<u8>, outcome: Result<RoundReply, RoundError>) -> Result<
        Seq<u8>,
        ProtocolError,
    > {
        match self {
            Session::Keygen(ctx) => ctx.spec_envelope(data, outcome),
            Session::Sign(ctx) => ctx.spec_envelope(data, outcome),
        }
    }

    open spec fn spec_serialize(&self) -> Seq<u8> {
        match self {
            Session::Keygen(ctx) => ctx.spec_serialize(),
            Session::Sign(ctx) => ctx.spec_serialize(),
        }
    }

    /// Whether the last round is done.
    fn finished(&self) -> (b: bool) {
        match self {
            Session::Keygen(ctx) => ctx.finished(),
            Session::Sign(ctx) => ctx.finished(),
        }
    }

    /// Reads the incoming bytes as the next round needs them.
    fn request(&self, data: &[u8]) -> (r: Result<RoundRequest, ProtocolError>) {
        match self {
            Session::Keygen(ctx) => ctx.request(data),
            Session::Sign(ctx) => ctx.request(data),
        }
    }

    /// Does one round of the protocol that the session runs. The session
    /// stays with its protocol.
    fn advance(&mut self, data: &[u8], outcome: Result<RoundReply, RoundError>) -> (r: Result<
        Vec<u8>,
        ProtocolError,
    >)
        ensures
            final(self).spec_protocol() == old(self).spec_protocol(),
            match old(self).spec_advance(data@, outcome) {
                Ok((output, messages)) => {
                    &&& r is Ok
                    &&& spec_unpack(r->Ok_0@) == Some(messages)
                    &&& final(self).spec_round() == old(self).spec_round() + 1
                    &&& final(self).spec_carried() == output.spec_bytes()
                },
                Err(_) => true,
            },
    {
        match self {
            Session::Keygen(ctx) => ctx.advance(data, outcome),
            Session::Sign(ctx) => ctx.advance(data, outcome),
        }
    }

    /// Seals the session. What comes out opens again, to the same session.
    fn serialize(&self) -> (blob: Vec<u8>)
        ensures
            Self::spec_deserialize(blob@) == Some(
                (self.spec_protocol(), self.spec_round(), self.spec_carried()),
            ),
    {
        match self {
            Session::Keygen(ctx) => ctx.serialize(),
            Session::Sign(ctx) => ctx.serialize(),
        }
    }

    /// Ends the session and hands out its artifact: the sealed group of a key
    /// generation, the signature of a signing.
    fn finish(self) -> (r: Result<Vec<u8>, ProtocolError>) {
        match self {
            Session::Keygen(ctx) => ctx.finish(),
            Session::Sign(ctx) => ctx.finish(),
        }
    }
}

/// A session that is sealed and opened again is the same session: no round
/// and no byte is lost.
pub proof fn lemma_persistence_round_trip(session: Session)
    ensures
        Session::spec_deserialize(session.spec_serialize()) == Some(
            (session.spec_protocol(), session.spec_round(), session.spec_carried()),
        ),
{
    let carried = session.spec_carried();
    assert(carried.len() <= usize::MAX) by {
        match session {
            Session::Keygen(ctx) => match ctx {
                KeygenContext::R0 => {},
                KeygenContext::R1(bytes) => {
                    assert(bytes.len() == carried.len());
                },
                KeygenContext::R2(bytes) => {
                    assert(bytes.len() == carried.len());
                },
                KeygenContext::R3(bytes) => {
                    assert(bytes.len() == carried.len());
                },
                KeygenContext::R4(bytes) => {
                    assert(bytes.len() == carried.len());
                },
                KeygenContext::R5(bytes) => {
                    assert(bytes.len() == carried.len());
                },
                KeygenContext::Done(bytes) => {
                    assert(bytes.len() == carried.len());
                },
            },
            Session::Sign(ctx) => match ctx {
                SignContext::R0(bytes) => {
                    assert(bytes.len() == carried.len());
                },
                SignContext::R1(bytes) => {
                    assert(bytes.len() == carried.len());
                },
                SignContext::R2(bytes) => {
                    assert(bytes.len() == carried.len());
                },
                SignContext::R3(bytes) => {
                    assert(bytes.len() == carried.len());
                },
                SignContext::R4(bytes) => {
                    assert(bytes.len() == carried.len());
                },
                SignContext::R5(bytes) => {
                    assert(bytes.len() == carried.len());
                },
                SignContext::R6(bytes) => {
                    assert(bytes.len() == carried.len());
                },
                SignContext::R7(bytes) => {
                    assert(bytes.len() == carried.len());
                },
                SignContext::R8(bytes) => {
                    assert(bytes.len() == carried.len());
                },
                SignContext::R9(bytes) => {
                    assert(bytes.len() == carried.len());
                },
                SignContext::Done(bytes) => {
                    assert(bytes.len() == carried.len());
                },
            },
        }
    }
    lemma_unseal_seal(KIND_KEYGEN, session.spec_round() as u8, carried);
    lemma_unseal_seal(KIND_SIGN, session.spec_round() as u8, carried);
}

/// Two sessions that are the same behave alike: on the same incoming bytes
/// they ask for the same round, and with the same outcome they ship the same
/// envelope, fail with the same error, and come to hold the same bytes; at
/// the end they hand out the same artifact. So a session that was sealed and
/// opened again goes on as the one that was sealed would have.
pub proof fn lemma_same_sessions_behave_alike(
    a: Session,
    b: Session,
    data: Seq<u8>,
    outcome: Result<RoundReply, RoundError>,
)
    requires
        a.spec_same(&b),
    ensures
        a.spec_request(data) == b.spec_request(data),
        a.spec_advance(data, outcome) == b.spec_advance(data, outcome),
        a.spec_envelope(data, outcome) == b.spec_envelope(data, outcome),
        a.spec_finished() == b.spec_finished(),
        a.spec_artifact() == b.spec_artifact(),
{
}

/// A session is finished by its last round function and by nothing else: a
/// round leaves the session finished exactly where its round function handed
/// back an artifact, and that is the round after which no round is left.
/// Until every round function before it has given its context, no state
/// holds an artifact.
pub proof fn lemma_finished_by_last_round(
    before: Session,
    after: Session,
    data: Seq<u8>,
    outcome: Result<RoundReply, RoundError>,
)
    requires
        before.spec_advance(data, outcome) is Ok,
        after.spec_protocol() == before.spec_protocol(),
        after.spec_round() == before.spec_round() + 1,
    ensures
        !before.spec_finished(),
        outcome is Ok,
        after.spec_finished() <==> outcome->Ok_0.output is Final,
{
}

} // verus!
