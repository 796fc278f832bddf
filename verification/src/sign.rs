//! The signing state machine: ten rounds, from a group descriptor and the
//! opening message to a signature.
//!
//! | from | round | to the peers        |
//! |------|-------|---------------------|
//! | R0   | 1     | broadcast           |
//! | R1   | 2     | unicast             |
//! | R2-8 | 3-9   | broadcast           |
//! | R9   | 10    | nothing             |
//!
//! The first round serves one peer less than the opening message names
//! parties; every later round serves as many peers as its incoming envelope
//! holds messages. An opening message that names no party at all leaves no
//! number of peers to serve, and is refused as a `CryptoFailure` before any
//! round function is asked.

use vstd::prelude::*;
use vstd::slice::slice_to_vec;
use crate::context::{
    deliver,
    Signature,
    spec_deliver,
    Fanout,
    ProtocolType,
    RoundInput,
    RoundInputView,
    RoundOutputType,
    RoundReply,
    RoundRequest,
    RoundRequestView,
};
use crate::error::{ProtocolError, RoundError};
use crate::framing::{spec_pack, spec_unpack, unpack};
use crate::group::{spec_unseal_group, Gg18Group, Group};
use crate::init::{spec_low16, spec_sign_init, SignInit};
use crate::persist::{seal, spec_seal, spec_unseal, KIND_SIGN};
use crate::protocol::Protocol;

verus! {

/// The number of rounds of a signing.
pub const SIGN_ROUNDS: u8 = 10;

/// A signing session between two rounds. `R0` holds the group descriptor,
/// `R1` to `R9` the context that the round of that number left, and `Done`
/// the signature.
pub enum SignContext {
    R0(Vec<u8>),
    R1(Vec<u8>),
    R2(Vec<u8>),
    R3(Vec<u8>),
    R4(Vec<u8>),
    R5(Vec<u8>),
    R6(Vec<u8>),
    R7(Vec<u8>),
    R8(Vec<u8>),
    R9(Vec<u8>),
    Done(Signature),
}

/// The indices as the round functions take them: the low 16 bits of each.
pub open spec fn spec_narrow(indices: Seq<u32>) -> Seq<u16> {
    Seq::new(indices.len(), |i: int| spec_low16(indices[i]))
}

/// Cuts each index down to its low 16 bits.
fn narrow(indices: &Vec<u32>) -> (out: Vec<u16>)
    ensures
        out@ == spec_narrow(indices@),
{
    let mut out: Vec<u16> = Vec::new();
    let mut i: usize = 0;
    while i < indices.len()
        invariant
            i <= indices@.len(),
            out@ == spec_narrow(indices@).take(i as int),
        decreases indices@.len() - i,
    {
        out.push((indices[i] % 0x1_0000) as u16);
        proof {
            assert(out@ =~= spec_narrow(indices@).take(i + 1));
        }
        i = i + 1;
    }
    proof {
        assert(spec_narrow(indices@).take(i as int) =~= spec_narrow(indices@));
    }
    out
}

impl SignContext {
    /// The number of rounds done: 0 before the first, 10 when the signature
    /// is there.
    pub open spec fn spec_round(&self) -> nat {
        match self {
            SignContext::R0(_) => 0,
            SignContext::R1(_) => 1,
            SignContext::R2(_) => 2,
            SignContext::R3(_) => 3,
            SignContext::R4(_) => 4,
            SignContext::R5(_) => 5,
            SignContext::R6(_) => 6,
            SignContext::R7(_) => 7,
            SignContext::R8(_) => 8,
            SignContext::R9(_) => 9,
            SignContext::Done(_) => 10,
        }
    }

    /// The bytes that the state holds: group descriptor, round context or
    /// signature.
    pub open spec fn spec_carried(&self) -> Seq<u8> {
        match self {
            SignContext::R0(bytes) => bytes@,
            SignContext::R1(bytes) => bytes@,
            SignContext::R2(bytes) => bytes@,
            SignContext::R3(bytes) => bytes@,
            SignContext::R4(bytes) => bytes@,
            SignContext::R5(bytes) => bytes@,
            SignContext::R6(bytes) => bytes@,
            SignContext::R7(bytes) => bytes@,
            SignContext::R8(bytes) => bytes@,
            SignContext::R9(bytes) => bytes@,
            SignContext::Done(bytes) => bytes@,
        }
    }

    /// How the output of the round that follows `from` rounds reaches the
    /// peers.
    pub open spec fn spec_fanout(from: nat) -> Fanout {
        if from == 1 {
            Fanout::Unicast
        } else if from == 9 {
            Fanout::Silent
        } else {
            Fanout::Broadcast
        }
    }

    /// The number of peers that the next round's envelope serves, given the
    /// incoming bytes; or the error that ends the round before any round
    /// function is asked.
    pub open spec fn spec_peers(&self, data: Seq<u8>) -> Result<nat, ProtocolError> {
        if self.spec_round() == 10 {
            Err(ProtocolError::ProtocolFinished)
        } else if self.spec_round() == 0 {
            match spec_sign_init(data) {
                None => Err(ProtocolError::MalformedInit),
                Some(init) => if init.indices.len() == 0 {
                    Err(ProtocolError::CryptoFailure)
                } else {
                    Ok((init.indices.len() - 1) as nat)
                },
            }
        } else {
            match spec_unpack(data) {
                None => Err(ProtocolError::MalformedFrame),
                Some(msgs) => Ok(msgs.len()),
            }
        }
    }

    /// What one round makes of the incoming bytes and of the outcome of its
    /// round function: the bytes the next state holds and the messages that
    /// its envelope holds, or the error.
    pub open spec fn spec_advance(&self, data: Seq<u8>, outcome: Result<RoundReply, RoundError>)
        -> Result<(RoundOutputType<Vec<u8>, Vec<u8>>, Seq<Seq<u8>>), ProtocolError> {
        match self.spec_peers(data) {
            Err(e) => Err(e),
            Ok(n) => spec_deliver(
                outcome,
                self.spec_round() == 9,
                Self::spec_fanout(self.spec_round()),
                n,
            ),
        }
    }

    /// A signing session on the group that the sealed blob `group` holds,
    /// before its first round.
    pub fn new(group: &[u8]) -> (r: Result<Self, ProtocolError>)
        ensures
            match spec_unseal_group(group@) {
                Some(descriptor) => r is Ok && r->Ok_0.spec_round() == 0
                    && r->Ok_0.spec_carried() == descriptor,
                None => r is Err && r->Err_0 == ProtocolError::CorruptGroup,
            },
    {
        match Gg18Group::from_bytes(group) {
            Err(e) => Err(e),
            Ok(descriptor) => Ok(descriptor.sign()),
        }
    }

    /// How the output of the round that follows `from` rounds reaches the
    /// peers.
    pub fn fanout(from: u8) -> (kind: Fanout)
        ensures
            kind == Self::spec_fanout(from as nat),
    {
        if from == 1 {
            Fanout::Unicast
        } else if from == 9 {
            Fanout::Silent
        } else {
            Fanout::Broadcast
        }
    }

    /// The number of rounds done.
    pub fn round(&self) -> (r: u8)
        ensures
            r == self.spec_round(),
    {
        match self {
            SignContext::R0(_) => 0,
            SignContext::R1(_) => 1,
            SignContext::R2(_) => 2,
            SignContext::R3(_) => 3,
            SignContext::R4(_) => 4,
            SignContext::R5(_) => 5,
            SignContext::R6(_) => 6,
            SignContext::R7(_) => 7,
            SignContext::R8(_) => 8,
            SignContext::R9(_) => 9,
            SignContext::Done(_) => 10,
        }
    }

    /// A copy of the bytes that the state holds.
    pub fn carried(&self) -> (bytes: Vec<u8>)
        ensures
            bytes@ == self.spec_carried(),
    {
        match self {
            SignContext::R0(bytes) => slice_to_vec(bytes.as_slice()),
            SignContext::R1(bytes) => slice_to_vec(bytes.as_slice()),
            SignContext::R2(bytes) => slice_to_vec(bytes.as_slice()),
            SignContext::R3(bytes) => slice_to_vec(bytes.as_slice()),
            SignContext::R4(bytes) => slice_to_vec(bytes.as_slice()),
            SignContext::R5(bytes) => slice_to_vec(bytes.as_slice()),
            SignContext::R6(bytes) => slice_to_vec(bytes.as_slice()),
            SignContext::R7(bytes) => slice_to_vec(bytes.as_slice()),
            SignContext::R8(bytes) => slice_to_vec(bytes.as_slice()),
            SignContext::R9(bytes) => slice_to_vec(bytes.as_slice()),
            SignContext::Done(bytes) => slice_to_vec(bytes.as_slice()),
        }
    }

    /// The state after `round` rounds that holds `bytes`.
    fn at(round: u8, bytes: Vec<u8>) -> (ctx: Self)
        requires
            round <= 10,
        ensures
            ctx.spec_round() == round,
            ctx.spec_carried() == bytes@,
    {
        if round == 0 {
            SignContext::R0(bytes)
        } else if round == 1 {
            SignContext::R1(bytes)
        } else if round == 2 {
            SignContext::R2(bytes)
        } else if round == 3 {
            SignContext::R3(bytes)
        } else if round == 4 {
            SignContext::R4(bytes)
        } else if round == 5 {
            SignContext::R5(bytes)
        } else if round == 6 {
            SignContext::R6(bytes)
        } else if round == 7 {
            SignContext::R7(bytes)
        } else if round == 8 {
            SignContext::R8(bytes)
        } else if round == 9 {
            SignContext::R9(bytes)
        } else {
            SignContext::Done(bytes)
        }
    }

    /// The state after `round` rounds that holds `bytes`, where there is one:
    /// for a `round` up to 10.
    pub fn restore(round: u8, bytes: Vec<u8>) -> (r: Option<Self>)
        ensures
            round <= 10 ==> r is Some && r->Some_0.spec_round() == round
                && r->Some_0.spec_carried() == bytes@,
            round > 10 ==> r is None,
    {
        if round <= SIGN_ROUNDS {
            Some(Self::at(round, bytes))
        } else {
            None
        }
    }

    /// The number of peers that the next round's envelope serves.
    fn peers(&self, data: &[u8]) -> (r: Result<usize, ProtocolError>)
        ensures
            match self.spec_peers(data@) {
                Ok(n) => r is Ok && r->Ok_0 == n,
                Err(e) => r is Err && r->Err_0 == e,
            },
    {
        let from: u8 = self.round();
        if from == SIGN_ROUNDS {
            Err(ProtocolError::ProtocolFinished)
        } else if from == 0 {
            match SignInit::decode(data) {
                Err(e) => Err(e),
                Ok(init) => if init.indices.len() == 0 {
                    Err(ProtocolError::CryptoFailure)
                } else {
                    Ok(init.indices.len() - 1)
                },
            }
        } else {
            match unpack(data) {
                Err(e) => Err(e),
                Ok(msgs) => Ok(msgs.len()),
            }
        }
    }

}

impl Protocol for SignContext {
    open spec fn spec_rounds_done(&self) -> nat {
        self.spec_round()
    }

    open spec fn spec_finished(&self) -> bool {
        self.spec_round() == 10
    }

    open spec fn spec_artifact(&self) -> Seq<u8> {
        self.spec_carried()
    }

    open spec fn spec_request(&self, data: Seq<u8>) -> Result<RoundRequestView, ProtocolError> {
        match self.spec_peers(data) {
            Err(e) => Err(e),
            Ok(_) => Ok(
                RoundRequestView {
                    protocol: ProtocolType::Sign,
                    round: (self.spec_round() + 1) as u8,
                    context: self.spec_carried(),
                    input: if self.spec_round() == 0 {
                        let init = spec_sign_init(data)->Some_0;
                        RoundInputView::SignInit {
                            indices: spec_narrow(init.indices),
                            position: init.index as usize,
                            hash: init.hash,
                        }
                    } else {
                        RoundInputView::Messages(spec_unpack(data)->Some_0)
                    },
                },
            ),
        }
    }

    open spec fn spec_envelope(&self, data: Seq<u8>, outcome: Result<RoundReply, RoundError>) -> Result<
        Seq<u8>,
        ProtocolError,
    > {
        match self.spec_advance(data, outcome) {
            Ok((_, messages)) => Ok(spec_pack(messages)),
            Err(e) => Err(e),
        }
    }

    open spec fn spec_serialize(&self) -> Seq<u8> {
        spec_seal(KIND_SIGN, self.spec_round() as u8, self.spec_carried())
    }

    /// Whether the last round is done.
    fn finished(&self) -> (b: bool) {
        self.round() == SIGN_ROUNDS
    }

    /// Reads the incoming bytes as the next round needs them: the opening
    /// message before the first round, an envelope after it.
    fn request(&self, data: &[u8]) -> (r: Result<RoundRequest, ProtocolError>) {
        let from: u8 = self.round();
        if from == SIGN_ROUNDS {
            return Err(ProtocolError::ProtocolFinished);
        }
        let input: RoundInput = if from == 0 {
            match SignInit::decode(data) {
                Err(e) => {
                    return Err(e);
                },
                Ok(init) => {
                    if init.indices.len() == 0 {
                        return Err(ProtocolError::CryptoFailure);
                    }
                    RoundInput::SignInit {
                        indices: narrow(&init.indices),
                        position: init.index as usize,
                        hash: init.hash,
                    }
                },
            }
        } else {
            match unpack(data) {
                Err(e) => {
                    return Err(e);
                },
                Ok(msgs) => RoundInput::Messages(msgs),
            }
        };
        Ok(
            RoundRequest {
                protocol: ProtocolType::Sign,
                round: from + 1,
                context: self.carried(),
                input,
            },
        )
    }

    /// Does one round: takes the incoming bytes and the outcome of the round
    /// function that `request` asked for, moves to the next state and gives
    /// the envelope to ship. On an error the state stays as it was.
    fn advance(&mut self, data: &[u8], outcome: Result<RoundReply, RoundError>) -> (r: Result<
        Vec<u8>,
        ProtocolError,
    >)
        ensures
            match old(self).spec_advance(data@, outcome) {
                Ok((output, messages)) => {
                    &&& r is Ok
                    &&& spec_unpack(r->Ok_0@) == Some(messages)
                    &&& final(self).spec_round() == old(self).spec_round() + 1
                    &&& final(self).spec_carried() == output.spec_bytes()
                },
                Err(_) => true,
            },
    {
        let from: u8 = self.round();
        let n: usize = match self.peers(data) {
            Err(e) => {
                return Err(e);
            },
            Ok(n) => n,
        };
        match deliver(outcome, from == 9, Self::fanout(from), n) {
            Err(e) => Err(e),
            Ok(out) => {
                *self = Self::at(from + 1, out.output.into_bytes());
                Ok(out.data_out)
            },
        }
    }

    /// Seals the state: its kind, the rounds done and the bytes held.
    fn serialize(&self) -> (blob: Vec<u8>)
        ensures
            spec_unseal(blob@) == Some((KIND_SIGN, self.spec_round() as u8, self.spec_carried())),
    {
        let bytes: Vec<u8> = self.carried();
        seal(KIND_SIGN, self.round(), bytes.as_slice())
    }

    /// The signature as the last round gave it, once that round is done.
    fn finish(self) -> (r: Result<Vec<u8>, ProtocolError>) {
        match self {
            SignContext::Done(signature) => Ok(signature),
            _ => Err(ProtocolError::ProtocolNotFinished),
        }
    }
}

} // verus!
