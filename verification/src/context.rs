//! What passes between a session and the round functions that do its
//! cryptography: the request that names a round and holds its inputs, the
//! reply that holds what the round produced, and the output that a session
//! makes of a reply.

use vstd::prelude::*;
use crate::error::{ProtocolError, RoundError};
use crate::fanout::{broadcast, spec_broadcast};
use crate::framing::{lemma_unpack_pack, pack, spec_pack, spec_payloads, spec_unpack};

verus! {

/// Where a round leaves a session: in the middle, holding what the next round
/// starts from, or at its end, holding the finished artifact.
pub enum RoundOutputType<T, U> {
    Inter(T),
    Final(U),
}

/// The result of one round: where the session stands, and the bytes to ship.
pub struct RoundOutput<T, U> {
    pub output: RoundOutputType<T, U>,
    pub data_out: Vec<u8>,
}

/// A finished signature, in the round functions' own encoding.
pub type Signature = Vec<u8>;

/// The ways in which a round's output reaches the peers.
#[derive(Clone, Copy, Debug, PartialEq, Eq, Structural)]
pub enum Fanout {
    /// The same payload for every peer.
    Broadcast,
    /// A payload of its own for each peer, in the peers' order.
    Unicast,
    /// Nothing: the session is over.
    Silent,
}

/// What a round produced for the peers.
pub enum Outgoing {
    Broadcast(Vec<u8>),
    Unicast(Vec<Vec<u8>>),
    Silent,
}

impl Outgoing {
    /// The way in which this output reaches the peers.
    pub open spec fn spec_kind(&self) -> Fanout {
        match self {
            Outgoing::Broadcast(_) => Fanout::Broadcast,
            Outgoing::Unicast(_) => Fanout::Unicast,
            Outgoing::Silent => Fanout::Silent,
        }
    }

    /// The messages that `n` peers get, one each, in their order.
    pub open spec fn spec_messages(&self, n: nat) -> Seq<Seq<u8>> {
        match self {
            Outgoing::Broadcast(payload) => spec_broadcast(payload@, n),
            Outgoing::Unicast(payloads) => spec_payloads(payloads@),
            Outgoing::Silent => Seq::empty(),
        }
    }

    /// Whether this output serves `n` peers in the way `kind`. A unicast must
    /// hold a payload for each of them.
    pub open spec fn spec_serves(&self, kind: Fanout, n: nat) -> bool {
        &&& self.spec_kind() == kind
        &&& match self {
            Outgoing::Unicast(payloads) => payloads@.len() == n,
            _ => true,
        }
    }

    /// Whether this output serves `n` peers in the way `kind`.
    pub fn serves(&self, kind: Fanout, n: usize) -> (b: bool)
        ensures
            b == self.spec_serves(kind, n as nat),
    {
        match self {
            Outgoing::Broadcast(_) => kind == Fanout::Broadcast,
            Outgoing::Unicast(payloads) => kind == Fanout::Unicast && payloads.len() == n,
            Outgoing::Silent => kind == Fanout::Silent,
        }
    }

    /// The envelope that carries this output to `n` peers.
    pub fn envelope(&self, n: usize) -> (out: Vec<u8>)
        ensures
            out@ == spec_pack(self.spec_messages(n as nat)),
            spec_unpack(out@) == Some(self.spec_messages(n as nat)),
    {
        match self {
            Outgoing::Broadcast(payload) => {
                let copies = broadcast(payload, n);
                pack(&copies)
            },
            Outgoing::Unicast(payloads) => pack(payloads),
            Outgoing::Silent => {
                let none: Vec<Vec<u8>> = Vec::new();
                proof {
                    assert(spec_payloads(none@) =~= Seq::<Seq<u8>>::empty());
                }
                pack(&none)
            },
        }
    }
}

impl RoundOutputType<Vec<u8>, Vec<u8>> {
    /// The bytes held, context or artifact.
    pub open spec fn spec_bytes(&self) -> Seq<u8> {
        match self {
            RoundOutputType::Inter(context) => context@,
            RoundOutputType::Final(artifact) => artifact@,
        }
    }

    /// Hands out the bytes held, context or artifact.
    pub fn into_bytes(self) -> (bytes: Vec<u8>)
        ensures
            bytes@ == self.spec_bytes(),
    {
        match self {
            RoundOutputType::Inter(context) => context,
            RoundOutputType::Final(artifact) => artifact,
        }
    }
}

/// The two protocols that a session can run.
#[derive(Clone, Copy, Debug, PartialEq, Eq, Structural)]
pub enum ProtocolType {
    Keygen,
    Sign,
}

/// What a round function works on, besides the context of the round before.
pub enum RoundInput {
    /// The parameters of a key generation, for its first round.
    KeygenInit { parties: u16, threshold: u16, index: u16 },
    /// The parameters of a signing, for its first round.
    SignInit { indices: Vec<u16>, position: usize, hash: Vec<u8> },
    /// The peers' messages of the round before, one per peer.
    Messages(Vec<Vec<u8>>),
}

/// A round's input as plain values.
pub enum RoundInputView {
    KeygenInit { parties: u16, threshold: u16, index: u16 },
    SignInit { indices: Seq<u16>, position: usize, hash: Seq<u8> },
    Messages(Seq<Seq<u8>>),
}

impl View for RoundInput {
    type V = RoundInputView;

    open spec fn view(&self) -> RoundInputView {
        match self {
            RoundInput::KeygenInit { parties, threshold, index } => RoundInputView::KeygenInit {
                parties: *parties,
                threshold: *threshold,
                index: *index,
            },
            RoundInput::SignInit { indices, position, hash } => RoundInputView::SignInit {
                indices: indices@,
                position: *position,
                hash: hash@,
            },
            RoundInput::Messages(msgs) => RoundInputView::Messages(spec_payloads(msgs@)),
        }
    }
}

/// What a session asks of the round functions: which round of which protocol
/// to run, on which context and input. Rounds count from 1.
pub struct RoundRequest {
    pub protocol: ProtocolType,
    pub round: u8,
    pub context: Vec<u8>,
    pub input: RoundInput,
}

/// A request as plain values.
pub struct RoundRequestView {
    pub protocol: ProtocolType,
    pub round: u8,
    pub context: Seq<u8>,
    pub input: RoundInputView,
}

impl View for RoundRequest {
    type V = RoundRequestView;

    open spec fn view(&self) -> RoundRequestView {
        RoundRequestView {
            protocol: self.protocol,
            round: self.round,
            context: self.context@,
            input: self.input@,
        }
    }
}

/// What a round function gave back: the context for the next round, or the
/// artifact where the round was the last, and what goes to the peers.
pub struct RoundReply {
    pub output: RoundOutputType<Vec<u8>, Vec<u8>>,
    pub messages: Outgoing,
}

impl RoundReply {
    /// Whether this reply is what a round may give that is the last one or
    /// not (`last`), and whose output reaches `n` peers in the way `kind`.
    pub open spec fn spec_fits(&self, last: bool, kind: Fanout, n: nat) -> bool {
        &&& (self.output is Final) == last
        &&& self.messages.spec_serves(kind, n)
    }
}

/// What a session makes of the outcome of a round: of a failure its error, of
/// a reply that fits the round the context or artifact as it came, with the
/// messages for the `n` peers, and of any other reply a `CryptoFailure`.
pub open spec fn spec_deliver(
    outcome: Result<RoundReply, RoundError>,
    last: bool,
    kind: Fanout,
    n: nat,
) -> Result<(RoundOutputType<Vec<u8>, Vec<u8>>, Seq<Seq<u8>>), ProtocolError> {
    match outcome {
        Err(e) => Err(e.spec_surface()),
        Ok(reply) => if reply.spec_fits(last, kind, n) {
            Ok((reply.output, reply.messages.spec_messages(n)))
        } else {
            Err(ProtocolError::CryptoFailure)
        },
    }
}

/// Turns the outcome of a round into the round's output: the context or
/// artifact, and the envelope that holds the messages for the peers.
pub fn deliver(outcome: Result<RoundReply, RoundError>, last: bool, kind: Fanout, n: usize) -> (r:
    Result<RoundOutput<Vec<u8>, Vec<u8>>, ProtocolError>)
    ensures
        match spec_deliver(outcome, last, kind, n as nat) {
            Ok((output, messages)) => {
                &&& r is Ok
                &&& r->Ok_0.output == output
                &&& r->Ok_0.data_out@ == spec_pack(messages)
                &&& spec_unpack(r->Ok_0.data_out@) == Some(messages)
            },
            Err(e) => r is Err && r->Err_0 == e,
        },
{
    match outcome {
        Err(e) => Err(e.surface()),
        Ok(reply) => {
            let is_final: bool = match &reply.output {
                RoundOutputType::Inter(_) => false,
                RoundOutputType::Final(_) => true,
            };
            if is_final != last || !reply.messages.serves(kind, n) {
                return Err(ProtocolError::CryptoFailure);
            }
            let data_out: Vec<u8> = reply.messages.envelope(n);
            Ok(RoundOutput { output: reply.output, data_out })
        },
    }
}

/// The messages of a round that fits reach the peers complete: the round's
/// envelope unpacks to them.
pub proof fn lemma_delivered_unpacks(
    outcome: Result<RoundReply, RoundError>,
    last: bool,
    kind: Fanout,
    n: nat,
)
    requires
        spec_deliver(outcome, last, kind, n) is Ok,
    ensures
        spec_unpack(spec_pack(spec_deliver(outcome, last, kind, n)->Ok_0.1)) == Some(
            spec_deliver(outcome, last, kind, n)->Ok_0.1,
        ),
{
    match outcome->Ok_0.messages {
        Outgoing::Broadcast(payload) => {
            assert(payload.len() == payload@.len());
            lemma_unpack_pack(spec_broadcast(payload@, n));
        },
        Outgoing::Unicast(payloads) => {
            assert forall|i: int| 0 <= i < payloads@.len() implies (#[trigger] spec_payloads(
                payloads@,
            )[i]).len() <= u64::MAX by {
                assert(payloads@[i].len() == payloads@[i]@.len());
            }
            lemma_unpack_pack(spec_payloads(payloads@));
        },
        Outgoing::Silent => {
            lemma_unpack_pack(Seq::<Seq<u8>>::empty());
        },
    }
}

/// In a round that broadcasts, every peer gets the same bytes: the envelope
/// holds the payload once for each of the `n` peers.
pub proof fn lemma_broadcast_uniform(
    outcome: Result<RoundReply, RoundError>,
    last: bool,
    kind: Fanout,
    n: nat,
)
    requires
        spec_deliver(outcome, last, kind, n) is Ok,
        outcome->Ok_0.messages is Broadcast,
    ensures
        ({
            let envelope = spec_pack(spec_deliver(outcome, last, kind, n)->Ok_0.1);
            let payload = outcome->Ok_0.messages->Broadcast_0@;
            &&& spec_unpack(envelope) is Some
            &&& spec_unpack(envelope)->Some_0.len() == n
            &&& forall|i: int| 0 <= i < n ==> spec_unpack(envelope)->Some_0[i] == payload
        }),
{
    lemma_delivered_unpacks(outcome, last, kind, n);
}

/// In a round that sends each peer a payload of its own, the envelope holds
/// the round's payloads as they came, one for each of the `n` peers, in the
/// peers' order.
pub proof fn lemma_unicast_ordered(
    outcome: Result<RoundReply, RoundError>,
    last: bool,
    kind: Fanout,
    n: nat,
)
    requires
        spec_deliver(outcome, last, kind, n) is Ok,
        outcome->Ok_0.messages is Unicast,
    ensures
        ({
            let envelope = spec_pack(spec_deliver(outcome, last, kind, n)->Ok_0.1);
            let payloads = outcome->Ok_0.messages->Unicast_0@;
            &&& spec_unpack(envelope) is Some
            &&& spec_unpack(envelope)->Some_0.len() == n
            &&& forall|i: int| 0 <= i < n ==> spec_unpack(envelope)->Some_0[i] == payloads[i]@
        }),
{
    lemma_delivered_unpacks(outcome, last, kind, n);
}

} // verus!
