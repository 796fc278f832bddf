//! The group descriptor: what a key generation leaves and every signing of
//! the group starts from. To this library it is a sealed byte string, made
//! and read by the round functions.

use vstd::prelude::*;
use vstd::slice::slice_to_vec;
use crate::error::ProtocolError;
use crate::persist::{seal, spec_seal, spec_unseal, unseal, KIND_GROUP};
use crate::sign::SignContext;

verus! {

/// A group that can sign.
pub trait Group {
    /// The descriptor that the round functions read.
    spec fn spec_descriptor(&self) -> Seq<u8>;

    /// Opens a signing of this group, before its first round.
    fn sign(&self) -> (ctx: SignContext)
        ensures
            ctx.spec_round() == 0,
            ctx.spec_carried() == self.spec_descriptor(),
    ;
}

/// The descriptor of a group.
pub struct Gg18Group {
    pub data: Vec<u8>,
}

/// The sealed form of a group's descriptor.
pub open spec fn spec_seal_group(descriptor: Seq<u8>) -> Seq<u8> {
    spec_seal(KIND_GROUP, 0, descriptor)
}

/// The descriptor that a sealed blob holds, or `None` where the blob is no
/// sealed group.
pub open spec fn spec_unseal_group(blob: Seq<u8>) -> Option<Seq<u8>> {
    match spec_unseal(blob) {
        None => None,
        Some((kind, round, body)) => if kind == KIND_GROUP && round == 0 {
            Some(body)
        } else {
            None
        },
    }
}

impl Gg18Group {
    /// Opens a sealed group.
    pub fn from_bytes(blob: &[u8]) -> (r: Result<Gg18Group, ProtocolError>)
        ensures
            match spec_unseal_group(blob@) {
                Some(descriptor) => r is Ok && r->Ok_0.data@ == descriptor,
                None => r is Err && r->Err_0 == ProtocolError::CorruptGroup,
            },
    {
        match unseal(blob) {
            None => Err(ProtocolError::CorruptGroup),
            Some((kind, round, body)) => if kind == KIND_GROUP && round == 0 {
                Ok(Gg18Group { data: body })
            } else {
                Err(ProtocolError::CorruptGroup)
            },
        }
    }

    /// Seals the group. What comes out opens again, to the same descriptor.
    pub fn to_bytes(&self) -> (blob: Vec<u8>)
        ensures
            blob@ == spec_seal_group(self.data@),
            spec_unseal_group(blob@) == Some(self.data@),
    {
        seal(KIND_GROUP, 0, self.data.as_slice())
    }
}

impl Group for Gg18Group {
    open spec fn spec_descriptor(&self) -> Seq<u8> {
        self.data@
    }

    fn sign(&self) -> (ctx: SignContext) {
        SignContext::R0(slice_to_vec(self.data.as_slice()))
    }
}

} // verus!
