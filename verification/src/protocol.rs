//! What every session can do, whichever protocol it runs: say what its next
//! round needs, take the round's outcome and move on, and hand out its
//! artifact at the end.
//!
//! A session does no cryptography itself. A round goes in two steps. First
//! `request` reads the incoming bytes and names the round function to run,
//! with its inputs. The caller runs it. Then `advance` takes the same
//! incoming bytes and the outcome, moves the session to its next state and
//! gives the envelope to ship. Between two rounds a session can be sealed
//! into bytes and put away.

use vstd::prelude::*;
use crate::context::{RoundReply, RoundRequest, RoundRequestView};
use crate::error::{ProtocolError, RoundError};
use crate::framing::spec_unpack;

verus! {

/// A session of a multi-party protocol, driven round by round.
pub trait Protocol: Sized {
    /// The number of rounds done.
    spec fn spec_rounds_done(&self) -> nat;

    /// Whether the last round is done.
    spec fn spec_finished(&self) -> bool;

    /// What `finish` hands out once the last round is done.
    spec fn spec_artifact(&self) -> Seq<u8>;

    /// What the next round is asked to work on, given the incoming bytes, or
    /// the error that ends the round before any round function is asked.
    spec fn spec_request(&self, data: Seq<u8>) -> Result<RoundRequestView, ProtocolError>;

    /// The envelope that the next round ships, given the incoming bytes and
    /// the outcome of its round function, or the round's error.
    spec fn spec_envelope(&self, data: Seq<u8>, outcome: Result<RoundReply, RoundError>) -> Result<
        Seq<u8>,
        ProtocolError,
    >;

    /// The sealed form of the session, in which it can be put away between
    /// two rounds.
    spec fn spec_serialize(&self) -> Seq<u8>;

    /// Whether the last round is done.
    fn finished(&self) -> (b: bool)
        ensures
            b == self.spec_finished(),
    ;

    /// Reads the incoming bytes as the next round needs them. A finished
    /// session asks for nothing more.
    fn request(&self, data: &[u8]) -> (r: Result<RoundRequest, ProtocolError>)
        ensures
            match self.spec_request(data@) {
                Ok(view) => r is Ok && r->Ok_0@ == view,
                Err(e) => r is Err && r->Err_0 == e,
            },
            self.spec_finished() ==> r is Err && r->Err_0 == ProtocolError::ProtocolFinished,
    ;

    /// Does one round. A round that succeeds is one round more done, and the
    /// envelope that comes out always unpacks. A session that fails stays as
    /// it was, and so does one that is finished. Where `request` fails on the
    /// incoming bytes, the round fails in the same way, whatever the outcome
    /// handed in.
    fn advance(&mut self, data: &[u8], outcome: Result<RoundReply, RoundError>) -> (r: Result<
        Vec<u8>,
        ProtocolError,
    >)
        ensures
            match old(self).spec_envelope(data@, outcome) {
                Ok(envelope) => {
                    &&& r is Ok
                    &&& r->Ok_0@ == envelope
                    &&& spec_unpack(envelope) is Some
                    &&& !old(self).spec_finished()
                    &&& final(self).spec_rounds_done() == old(self).spec_rounds_done() + 1
                },
                Err(e) => r is Err && r->Err_0 == e && *final(self) == *old(self),
            },
            old(self).spec_finished() ==> r is Err && r->Err_0 == ProtocolError::ProtocolFinished,
            old(self).spec_request(data@) is Err ==> r is Err && r->Err_0 == old(self).spec_request(
                data@,
            )->Err_0,
    ;

    /// Seals the session, with all it holds.
    fn serialize(&self) -> (blob: Vec<u8>)
        ensures
            blob@ == self.spec_serialize(),
    ;

    /// Ends the session and hands out its artifact, once the last round is
    /// done.
    fn finish(self) -> (r: Result<Vec<u8>, ProtocolError>)
        ensures
            match r {
                Ok(artifact) => self.spec_finished() && artifact@ == self.spec_artifact(),
                Err(e) => !self.spec_finished() && e == ProtocolError::ProtocolNotFinished,
            },
    ;
}

} // verus!
