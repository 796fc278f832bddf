//! The key generation state machine: six rounds, from the opening message to
//! a group descriptor.
//!
//! | from | round | to the peers                    |
//! |------|-------|---------------------------------|
//! | R0   | 1     | broadcast                       |
//! | R1   | 2     | broadcast                       |
//! | R2   | 3     | unicast                         |
//! | R3   | 4     | broadcast                       |
//! | R4   | 5     | broadcast                       |
//! | R5   | 6     | broadcast of the group's key    |
//!
//! The first round serves one peer less than the opening message names
//! parties; every later round serves as many peers as its incoming envelope
//! holds messages. An opening message that names no party at all leaves no
//! number of peers to serve, and is refused as a `CryptoFailure` before any
//! round function is asked. The round functions take the parameters as 16-bit
//! numbers: they get the low 16 bits of what the message holds.

use vstd::prelude::*;
use vstd::slice::slice_to_vec;
use crate::context::{
    deliver,
    spec_deliver,
    Fanout,
    ProtocolType,
    RoundInput,
    RoundInputView,
    RoundOutputType,
    RoundReply,
    RoundRequest,
    RoundRequestView,
};
use crate::error::{ProtocolError, RoundError};
use crate::framing::{spec_pack, spec_unpack, unpack};
use crate::group::{spec_seal_group, Gg18Group};
use crate::init::{spec_keygen_init, spec_low16, KeygenInit};
use crate::persist::{seal, spec_seal, spec_unseal, KIND_KEYGEN};
use crate::protocol::Protocol;

verus! {

/// The number of rounds of a key generation.
pub const KEYGEN_ROUNDS: u8 = 6;

/// A key generation between two rounds. `R0` holds nothing, `R1` to `R5` the
/// context that the round of that number left, and `Done` the group
/// descriptor.
pub enum KeygenContext {
    R0,
    R1(Vec<u8>),
    R2(Vec<u8>),
    R3(Vec<u8>),
    R4(Vec<u8>),
    R5(Vec<u8>),
    Done(Vec<u8>),
}

impl KeygenContext {
    /// The number of rounds done: 0 before the first, 6 when the group is
    /// there.
    pub open spec fn spec_round(&self) -> nat {
        match self {
            KeygenContext::R0 => 0,
            KeygenContext::R1(_) => 1,
            KeygenContext::R2(_) => 2,
            KeygenContext::R3(_) => 3,
            KeygenContext::R4(_) => 4,
            KeygenContext::R5(_) => 5,
            KeygenContext::Done(_) => 6,
        }
    }

    /// The bytes that the state holds: round context or group descriptor, and
    /// nothing before the first round.
    pub open spec fn spec_carried(&self) -> Seq<u8> {
        match self {
            KeygenContext::R0 => Seq::empty(),
            KeygenContext::R1(bytes) => bytes@,
            KeygenContext::R2(bytes) => bytes@,
            KeygenContext::R3(bytes) => bytes@,
            KeygenContext::R4(bytes) => bytes@,
            KeygenContext::R5(bytes) => bytes@,
            KeygenContext::Done(bytes) => bytes@,
        }
    }

    /// How the output of the round that follows `from` rounds reaches the
    /// peers.
    pub open spec fn spec_fanout(from: nat) -> Fanout {
        if from == 2 {
            Fanout::Unicast
        } else {
            Fanout::Broadcast
        }
    }

    /// The number of peers that the next round's envelope serves, given the
    /// incoming bytes; or the error that ends the round before any round
    /// function is asked.
    pub open spec fn spec_peers(&self, data: Seq<u8>) -> Result<nat, ProtocolError> {
        if self.spec_round() == 6 {
            Err(ProtocolError::ProtocolFinished)
        } else if self.spec_round() == 0 {
            match spec_keygen_init(data) {
                None => Err(ProtocolError::MalformedInit),
                Some(init) => if init.parties == 0 {
                    Err(ProtocolError::CryptoFailure)
                } else {
                    Ok((init.parties - 1) as nat)
                },
            }
        } else {
            match spec_unpack(data) {
                None => Err(ProtocolError::MalformedFrame),
                Some(msgs) => Ok(msgs.len()),
            }
        }
    }

    /// What one round makes of the incoming bytes and of the outcome of its
    /// round function: the bytes the next state holds and the messages that
    /// its envelope holds, or the error.
    pub open spec fn spec_advance(&self, data: Seq<u8>, outcome: Result<RoundReply, RoundError>)
        -> Result<(RoundOutputType<Vec<u8>, Vec<u8>>, Seq<Seq<u8>>), ProtocolError> {
        match self.spec_peers(data) {
            Err(e) => Err(e),
            Ok(n) => spec_deliver(
                outcome,
                self.spec_round() == 5,
                Self::spec_fanout(self.spec_round()),
                n,
            ),
        }
    }

    /// A key generation before its first round.
    pub fn new() -> (ctx: Self)
        ensures
            ctx.spec_round() == 0,
            ctx == KeygenContext::R0,
    {
        KeygenContext::R0
    }

    /// How the output of the round that follows `from` rounds reaches the
    /// peers.
    pub fn fanout(from: u8) -> (kind: Fanout)
        ensures
            kind == Self::spec_fanout(from as nat),
    {
        if from == 2 {
            Fanout::Unicast
        } else {
            Fanout::Broadcast
        }
    }

    /// The number of rounds done.
    pub fn round(&self) -> (r: u8)
        ensures
            r == self.spec_round(),
    {
        match self {
            KeygenContext::R0 => 0,
            KeygenContext::R1(_) => 1,
            KeygenContext::R2(_) => 2,
            KeygenContext::R3(_) => 3,
            KeygenContext::R4(_) => 4,
            KeygenContext::R5(_) => 5,
            KeygenContext::Done(_) => 6,
        }
    }

    /// A copy of the bytes that the state holds.
    pub fn carried(&self) -> (bytes: Vec<u8>)
        ensures
            bytes@ == self.spec_carried(),
    {
        match self {
            KeygenContext::R0 => Vec::new(),
            KeygenContext::R1(bytes) => slice_to_vec(bytes.as_slice()),
            KeygenContext::R2(bytes) => slice_to_vec(bytes.as_slice()),
            KeygenContext::R3(bytes) => slice_to_vec(bytes.as_slice()),
            KeygenContext::R4(bytes) => slice_to_vec(bytes.as_slice()),
            KeygenContext::R5(bytes) => slice_to_vec(bytes.as_slice()),
            KeygenContext::Done(bytes) => slice_to_vec(bytes.as_slice()),
        }
    }

    /// The state after `round` rounds that holds `bytes`.
    fn at(round: u8, bytes: Vec<u8>) -> (ctx: Self)
        requires
            1 <= round <= 6,
        ensures
            ctx.spec_round() == round,
            ctx.spec_carried() == bytes@,
    {
        if round == 1 {
            KeygenContext::R1(bytes)
        } else if round == 2 {
            KeygenContext::R2(bytes)
        } else if round == 3 {
            KeygenContext::R3(bytes)
        } else if round == 4 {
            KeygenContext::R4(bytes)
        } else if round == 5 {
            KeygenContext::R5(bytes)
        } else {
            KeygenContext::Done(bytes)
        }
    }

    /// Whether there is a state after `round` rounds that holds `bytes`: the
    /// round is at most 6, and before the first round nothing is held.
    pub open spec fn spec_restorable(round: u8, bytes: Seq<u8>) -> bool {
        round <= 6 && (round == 0 ==> bytes.len() == 0)
    }

    /// The state after `round` rounds that holds `bytes`, where there is one.
    pub fn restore(round: u8, bytes: Vec<u8>) -> (r: Option<Self>)
        ensures
            Self::spec_restorable(round, bytes@) ==> r is Some && r->Some_0.spec_round() == round
                && r->Some_0.spec_carried() == bytes@,
            !Self::spec_restorable(round, bytes@) ==> r is None,
    {
        if round == 0 {
            if bytes.len() == 0 {
                Some(KeygenContext::R0)
            } else {
                None
            }
        } else if round <= KEYGEN_ROUNDS {
            Some(Self::at(round, bytes))
        } else {
            None
        }
    }

    /// The number of peers that the next round's envelope serves.
    fn peers(&self, data: &[u8]) -> (r: Result<usize, ProtocolError>)
        ensures
            match self.spec_peers(data@) {
                Ok(n) => r is Ok && r->Ok_0 == n,
                Err(e) => r is Err && r->Err_0 == e,
            },
    {
        let from: u8 = self.round();
        if from == KEYGEN_ROUNDS {
            Err(ProtocolError::ProtocolFinished)
        } else if from == 0 {
            match KeygenInit::decode(data) {
                Err(e) => Err(e),
                Ok(init) => if init.parties == 0 {
                    Err(ProtocolError::CryptoFailure)
                } else {
                    Ok((init.parties - 1) as usize)
                },
            }
        } else {
            match unpack(data) {
                Err(e) => Err(e),
                Ok(msgs) => Ok(msgs.len()),
            }
        }
    }

}

impl Protocol for KeygenContext {
    open spec fn spec_rounds_done(&self) -> nat {
        self.spec_round()
    }

    open spec fn spec_finished(&self) -> bool {
        self.spec_round() == 6
    }

    open spec fn spec_artifact(&self) -> Seq<u8> {
        spec_seal_group(self.spec_carried())
    }

    open spec fn spec_request(&self, data: Seq<u8>) -> Result<RoundRequestView, ProtocolError> {
        match self.spec_peers(data) {
            Err(e) => Err(e),
            Ok(_) => Ok(
                RoundRequestView {
                    protocol: ProtocolType::Keygen,
                    round: (self.spec_round() + 1) as u8,
                    context: self.spec_carried(),
                    input: if self.spec_round() == 0 {
                        let init = spec_keygen_init(data)->Some_0;
                        RoundInputView::KeygenInit {
                            parties: spec_low16(init.parties),
                            threshold: spec_low16(init.threshold),
                            index: spec_low16(init.index),
                        }
                    } else {
                        RoundInputView::Messages(spec_unpack(data)->Some_0)
                    },
                },
            ),
        }
    }

    open spec fn spec_envelope(&self, data: Seq<u8>, outcome: Result<RoundReply, RoundError>) -> Result<
        Seq<u8>,
        ProtocolError,
    > {
        match self.spec_advance(data, outcome) {
            Ok((_, messages)) => Ok(spec_pack(messages)),
            Err(e) => Err(e),
        }
    }

    open spec fn spec_serialize(&self) -> Seq<u8> {
        spec_seal(KIND_KEYGEN, self.spec_round() as u8, self.spec_carried())
    }

    /// Whether the last round is done.
    fn finished(&self) -> (b: bool) {
        self.round() == KEYGEN_ROUNDS
    }

    /// Reads the incoming bytes as the next round needs them: the opening
    /// message before the first round, an envelope after it.
    fn request(&self, data: &[u8]) -> (r: Result<RoundRequest, ProtocolError>) {
        let from: u8 = self.round();
        if from == KEYGEN_ROUNDS {
            return Err(ProtocolError::ProtocolFinished);
        }
        let input: RoundInput = if from == 0 {
            match KeygenInit::decode(data) {
                Err(e) => {
                    return Err(e);
                },
                Ok(init) => {
                    if init.parties == 0 {
                        return Err(ProtocolError::CryptoFailure);
                    }
                    RoundInput::KeygenInit {
                        parties: (init.parties % 0x1_0000) as u16,
                        threshold: (init.threshold % 0x1_0000) as u16,
                        index: (init.index % 0x1_0000) as u16,
                    }
                },
            }
        } else {
            match unpack(data) {
                Err(e) => {
                    return Err(e);
                },
                Ok(msgs) => RoundInput::Messages(msgs),
            }
        };
        Ok(
            RoundRequest {
                protocol: ProtocolType::Keygen,
                round: from + 1,
                context: self.carried(),
                input,
            },
        )
    }

    /// Does one round: takes the incoming bytes and the outcome of the round
    /// function that `request` asked for, moves to the next state and gives
    /// the envelope to ship. On an error the state stays as it was.
    fn advance(&mut self, data: &[u8], outcome: Result<RoundReply, RoundError>) -> (r: Result<
        Vec<u8>,
        ProtocolError,
    >)
        ensures
            match old(self).spec_advance(data@, outcome) {
                Ok((output, messages)) => {
                    &&& r is Ok
                    &&& spec_unpack(r->Ok_0@) == Some(messages)
                    &&& final(self).spec_round() == old(self).spec_round() + 1
                    &&& final(self).spec_carried() == output.spec_bytes()
                },
                Err(_) => true,
            },
    {
        let from: u8 = self.round();
        let n: usize = match self.peers(data) {
            Err(e) => {
                return Err(e);
            },
            Ok(n) => n,
        };
        match deliver(outcome, from == 5, Self::fanout(from), n) {
            Err(e) => Err(e),
            Ok(out) => {
                *self = Self::at(from + 1, out.output.into_bytes());
                Ok(out.data_out)
            },
        }
    }

    /// Seals the state: its kind, the rounds done and the bytes held.
    fn serialize(&self) -> (blob: Vec<u8>)
        ensures
            spec_unseal(blob@) == Some((KIND_KEYGEN, self.spec_round() as u8, self.spec_carried())),
    {
        let bytes: Vec<u8> = self.carried();
        seal(KIND_KEYGEN, self.round(), bytes.as_slice())
    }

    /// The group descriptor, sealed, once the last round is done.
    fn finish(self) -> (r: Result<Vec<u8>, ProtocolError>) {
        match self {
            KeygenContext::Done(descriptor) => Ok(Gg18Group { data: descriptor }.to_bytes()),
            _ => Err(ProtocolError::ProtocolNotFinished),
        }
    }
}

} // verus!
