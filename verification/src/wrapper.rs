//! A session as a foreign host holds it: with the payload of the last call
//! and the last error beside it. A call that succeeds leaves its payload and
//! no error; a call that fails leaves its error in words and no payload.

use vstd::prelude::*;
use crate::context::{RoundReply, RoundRequest};
use crate::error::{ProtocolError, RoundError};
use crate::framing::spec_pack;
use crate::protocol::Protocol;
use crate::session::Session;

verus! {

/// A session with the result of the last call on it. `proto` is empty once
/// the session has handed out its artifact.
pub struct ProtoWrapper {
    pub proto: Option<Session>,
    pub res: Option<Vec<u8>>,
    pub err: String,
}

impl ProtoWrapper {
    /// What a call leaves behind for the host.
    pub open spec fn spec_holds(&self, res: Result<Seq<u8>, ProtocolError>) -> bool {
        match res {
            Ok(data) => self.res is Some && self.res->Some_0@ == data && self.err@ == Seq::<
                char,
            >::empty(),
            Err(e) => self.res is None && self.err@ == e.spec_message(),
        }
    }

    /// Wraps a session, with no result yet.
    pub fn new(proto: Session) -> (wrapper: Self)
        ensures
            wrapper.proto == Some(proto),
            wrapper.res is None,
            wrapper.err@ == Seq::<char>::empty(),
    {
        ProtoWrapper { proto: Some(proto), res: None, err: String::new() }
    }

    /// Records the result of a call: the payload of a success, the words of
    /// an error.
    pub fn set_res(&mut self, res: Result<Vec<u8>, ProtocolError>)
        ensures
            final(self).proto == old(self).proto,
            match res {
                Ok(data) => final(self).spec_holds(Ok(data@)),
                Err(e) => final(self).spec_holds(Err(e)),
            },
    {
        match res {
            Ok(data) => {
                self.res = Some(data);
                self.err = String::new();
            },
            Err(e) => {
                self.res = None;
                self.err = e.message();
            },
        }
    }

    /// What the next round of the session needs. Once the artifact is handed
    /// out there is no next round.
    pub fn request(&self, data: &[u8]) -> (r: Result<RoundRequest, ProtocolError>)
        ensures
            match self.proto {
                Some(session) => match session.spec_request(data@) {
                    Ok(view) => r is Ok && r->Ok_0@ == view,
                    Err(e) => r is Err && r->Err_0 == e,
                },
                None => r is Err && r->Err_0 == ProtocolError::ProtocolFinished,
            },
    {
        match &self.proto {
            Some(session) => session.request(data),
            None => Err(ProtocolError::ProtocolFinished),
        }
    }

    /// Does one round of the session and records the envelope or the error.
    pub fn update(&mut self, data: &[u8], outcome: Result<RoundReply, RoundError>)
        ensures
            match old(self).proto {
                Some(session) => match session.spec_advance(data@, outcome) {
                    Ok((output, messages)) => {
                        &&& final(self).spec_holds(Ok(spec_pack(messages)))
                        &&& final(self).proto is Some
                        &&& final(self).proto->Some_0.spec_protocol() == session.spec_protocol()
                        &&& final(self).proto->Some_0.spec_round() == session.spec_round() + 1
                        &&& final(self).proto->Some_0.spec_carried() == output.spec_bytes()
                    },
                    Err(e) => final(self).spec_holds(Err(e)) && final(self).proto == old(self).proto,
                },
                None => final(self).spec_holds(Err(ProtocolError::ProtocolFinished)) && final(self).proto is None,
            },
    {
        let res: Result<Vec<u8>, ProtocolError> = match &mut self.proto {
            Some(session) => session.advance(data, outcome),
            None => Err(ProtocolError::ProtocolFinished),
        };
        self.set_res(res);
    }

    /// Ends a finished session and records its artifact. A session that is
    /// not finished stays, and the error is recorded.
    pub fn output(&mut self)
        ensures
            match old(self).proto {
                Some(session) => if session.spec_finished() {
                    final(self).spec_holds(Ok(session.spec_artifact())) && final(self).proto is None
                } else {
                    final(self).spec_holds(Err(ProtocolError::ProtocolNotFinished)) && final(self).proto == old(self).proto
                },
                None => final(self).spec_holds(Err(ProtocolError::ProtocolFinished)) && final(self).proto is None,
            },
    {
        let res: Result<Vec<u8>, ProtocolError> = match self.proto.take() {
            None => Err(ProtocolError::ProtocolFinished),
            Some(session) => {
                if session.finished() {
                    session.finish()
                } else {
                    self.proto = Some(session);
                    Err(ProtocolError::ProtocolNotFinished)
                }
            },
        };
        self.set_res(res);
    }

    /// The payload of the last call, if it succeeded.
    pub fn res_buffer(&self) -> (r: Option<&Vec<u8>>)
        ensures
            match self.res {
                Some(data) => r is Some && *r->Some_0 == data,
                None => r is None,
            },
    {
        self.res.as_ref()
    }

    /// The error of the last call in words; empty if it succeeded.
    pub fn error(&self) -> (r: &str)
        ensures
            r@ == self.err@,
    {
        self.err.as_str()
    }
}

} // verus!
