//! The two messages that open a session, as the relay sends them: protobuf
//! messages whose fields are read here byte by byte.
//!
//! A key generation opens with the number of parties (field 1), the threshold
//! (field 2) and this party's index (field 3), each a 32-bit varint. A signing
//! opens with the indices of the parties that take part (field 1, repeated
//! 32-bit varints, packed or not), this party's position among them (field 2)
//! and the hash to sign (field 3, bytes). A field that is absent keeps its
//! default, a field that comes twice keeps its last value, and unknown fields
//! are stepped over.

use vstd::prelude::*;
use vstd::slice::{slice_subrange, slice_to_vec};
use crate::error::ProtocolError;
use crate::varint::{decode_varint, lemma_decode_varint_bounds, spec_decode_varint};
use crate::wire::{
    decode_key,
    lemma_decode_key_bounds,
    skip_field,
    spec_decode_key,
    spec_field_len,
    spec_remaining,
    WireType,
    RECURSION_LIMIT,
};

verus! {

/// What opens a key generation.
#[derive(Clone, Copy, Debug, PartialEq, Eq, Structural)]
pub struct KeygenInit {
    pub parties: u32,
    pub threshold: u32,
    pub index: u32,
}

/// What opens a signing.
#[derive(Debug)]
pub struct SignInit {
    pub indices: Vec<u32>,
    pub index: u32,
    pub hash: Vec<u8>,
}

/// A signing's opening message as plain values.
pub struct SignInitView {
    pub indices: Seq<u32>,
    pub index: u32,
    pub hash: Seq<u8>,
}

impl View for SignInit {
    type V = SignInitView;

    open spec fn view(&self) -> SignInitView {
        SignInitView { indices: self.indices@, index: self.index, hash: self.hash@ }
    }
}

/// The low 32 bits of a varint's value: what a 32-bit field keeps of it.
pub open spec fn spec_low32(v: nat) -> u32 {
    (v % 0x1_0000_0000) as u32
}

/// The low 16 bits of a 32-bit value.
pub open spec fn spec_low16(v: u32) -> u16 {
    (v % 0x1_0000) as u16
}

/// Reads the fields of a key generation's opening message from `pos` on, over
/// the values `acc` read so far.
pub open spec fn spec_keygen_init_from(s: Seq<u8>, pos: int, acc: KeygenInit) -> Option<KeygenInit>
    decreases spec_remaining(s, pos),
{
    if pos >= s.len() {
        Some(acc)
    } else {
        match spec_decode_key(s, pos) {
            None => None,
            Some((tag, wire_type, body)) => {
                proof {
                    lemma_decode_key_bounds(s, pos);
                    lemma_decode_varint_bounds(s, body);
                }
                if 1 <= tag <= 3 {
                    if wire_type != WireType::Varint {
                        None
                    } else {
                        match spec_decode_varint(s, body) {
                            None => None,
                            Some((v, next)) => spec_keygen_init_from(
                                s,
                                next,
                                if tag == 1 {
                                    KeygenInit { parties: spec_low32(v), ..acc }
                                } else if tag == 2 {
                                    KeygenInit { threshold: spec_low32(v), ..acc }
                                } else {
                                    KeygenInit { index: spec_low32(v), ..acc }
                                },
                            ),
                        }
                    }
                } else {
                    match spec_field_len(s, body, wire_type, tag, RECURSION_LIMIT as nat) {
                        None => None,
                        Some(skipped) => spec_keygen_init_from(s, body + skipped, acc),
                    }
                }
            },
        }
    }
}

/// The opening message of a key generation that `s` encodes, or `None` where
/// `s` encodes none.
pub open spec fn spec_keygen_init(s: Seq<u8>) -> Option<KeygenInit> {
    spec_keygen_init_from(s, 0, KeygenInit { parties: 0, threshold: 0, index: 0 })
}

/// Reads packed 32-bit varints from `pos` up to `end`, behind the values `acc`
/// read so far. The last varint must end at `end` exactly.
pub open spec fn spec_packed_from(s: Seq<u8>, pos: int, end: int, acc: Seq<u32>) -> Option<
    Seq<u32>,
>
    decreases spec_remaining(s, pos),
{
    if pos >= end {
        if pos == end {
            Some(acc)
        } else {
            None
        }
    } else {
        match spec_decode_varint(s, pos) {
            None => None,
            Some((v, next)) => {
                proof {
                    lemma_decode_varint_bounds(s, pos);
                }
                spec_packed_from(s, next, end, acc.push(spec_low32(v)))
            },
        }
    }
}

/// Reads the fields of a signing's opening message from `pos` on, over the
/// values `acc` read so far.
pub open spec fn spec_sign_init_from(s: Seq<u8>, pos: int, acc: SignInitView) -> Option<
    SignInitView,
>
    decreases spec_remaining(s, pos),
{
    if pos >= s.len() {
        Some(acc)
    } else {
        match spec_decode_key(s, pos) {
            None => None,
            Some((tag, wire_type, body)) => {
                proof {
                    lemma_decode_key_bounds(s, pos);
                    lemma_decode_varint_bounds(s, body);
                }
                if tag == 1 && wire_type == WireType::LengthDelimited {
                    match spec_decode_varint(s, body) {
                        None => None,
                        Some((len, start)) => if len > s.len() - start {
                            None
                        } else {
                            match spec_packed_from(s, start, start + len, acc.indices) {
                                None => None,
                                Some(indices) => spec_sign_init_from(
                                    s,
                                    start + len,
                                    SignInitView { indices, ..acc },
                                ),
                            }
                        },
                    }
                } else if tag == 1 || tag == 2 {
                    if wire_type != WireType::Varint {
                        None
                    } else {
                        match spec_decode_varint(s, body) {
                            None => None,
                            Some((v, next)) => spec_sign_init_from(
                                s,
                                next,
                                if tag == 1 {
                                    SignInitView { indices: acc.indices.push(spec_low32(v)), ..acc }
                                } else {
                                    SignInitView { index: spec_low32(v), ..acc }
                                },
                            ),
                        }
                    }
                } else if tag == 3 {
                    if wire_type != WireType::LengthDelimited {
                        None
                    } else {
                        match spec_decode_varint(s, body) {
                            None => None,
                            Some((len, start)) => if len > s.len() - start {
                                None
                            } else {
                                spec_sign_init_from(
                                    s,
                                    start + len,
                                    SignInitView { hash: s.subrange(start, start + len), ..acc },
                                )
                            },
                        }
                    }
                } else {
                    match spec_field_len(s, body, wire_type, tag, RECURSION_LIMIT as nat) {
                        None => None,
                        Some(skipped) => spec_sign_init_from(s, body + skipped, acc),
                    }
                }
            },
        }
    }
}

/// The opening message of a signing that `s` encodes, or `None` where `s`
/// encodes none.
pub open spec fn spec_sign_init(s: Seq<u8>) -> Option<SignInitView> {
    spec_sign_init_from(
        s,
        0,
        SignInitView { indices: Seq::empty(), index: 0, hash: Seq::empty() },
    )
}

/// What a 32-bit field keeps of a varint's value.
fn low32(v: u64) -> (r: u32)
    ensures
        r == spec_low32(v as nat),
{
    (v % 0x1_0000_0000) as u32
}

impl KeygenInit {
    /// Reads the opening message of a key generation.
    pub fn decode(data: &[u8]) -> (r: Result<KeygenInit, ProtocolError>)
        ensures
            match r {
                Ok(init) => spec_keygen_init(data@) == Some(init),
                Err(e) => e == ProtocolError::MalformedInit && spec_keygen_init(data@) is None,
            },
    {
        let n: usize = data.len();
        let mut pos: usize = 0;
        let mut init = KeygenInit { parties: 0, threshold: 0, index: 0 };
        while pos < n
            invariant
                n == data@.len(),
                pos <= n,
                spec_keygen_init(data@) == spec_keygen_init_from(data@, pos as int, init),
            decreases n - pos,
        {
            match decode_key(data, pos) {
                None => {
                    return Err(ProtocolError::MalformedInit);
                },
                Some((tag, wire_type, body)) => {
                    if 1 <= tag && tag <= 3 {
                        if wire_type != WireType::Varint {
                            return Err(ProtocolError::MalformedInit);
                        }
                        match decode_varint(data, body) {
                            None => {
                                return Err(ProtocolError::MalformedInit);
                            },
                            Some((v, next)) => {
                                if tag == 1 {
                                    init.parties = low32(v);
                                } else if tag == 2 {
                                    init.threshold = low32(v);
                                } else {
                                    init.index = low32(v);
                                }
                                pos = next;
                            },
                        }
                    } else {
                        match skip_field(data, body, wire_type, tag, RECURSION_LIMIT) {
                            None => {
                                return Err(ProtocolError::MalformedInit);
                            },
                            Some(next) => {
                                pos = next;
                            },
                        }
                    }
                },
            }
        }
        Ok(init)
    }
}

/// Reads packed 32-bit varints from `start` up to `end` and appends them to
/// `indices`. Gives `false`, with `indices` in no particular state, where the
/// bytes are no such run.
fn decode_packed(data: &[u8], start: usize, end: usize, indices: &mut Vec<u32>) -> (ok: bool)
    requires
        start <= end <= data@.len(),
    ensures
        ok ==> spec_packed_from(data@, start as int, end as int, old(indices)@) == Some(
            final(indices)@,
        ),
        !ok ==> spec_packed_from(data@, start as int, end as int, old(indices)@) is None,
{
    let mut pos: usize = start;
    while pos < end
        invariant
            pos <= data@.len(),
            end <= data@.len(),
            spec_packed_from(data@, start as int, end as int, old(indices)@) == spec_packed_from(
                data@,
                pos as int,
                end as int,
                indices@,
            ),
        decreases data@.len() - pos,
    {
        match decode_varint(data, pos) {
            None => {
                return false;
            },
            Some((v, next)) => {
                indices.push(low32(v));
                pos = next;
            },
        }
    }
    pos == end
}

impl SignInit {
    /// Reads the opening message of a signing.
    pub fn decode(data: &[u8]) -> (r: Result<SignInit, ProtocolError>)
        ensures
            match r {
                Ok(init) => spec_sign_init(data@) == Some(init@),
                Err(e) => e == ProtocolError::MalformedInit && spec_sign_init(data@) is None,
            },
    {
        let n: usize = data.len();
        let mut pos: usize = 0;
        let mut indices: Vec<u32> = Vec::new();
        let mut index: u32 = 0;
        let mut hash: Vec<u8> = Vec::new();
        while pos < n
            invariant
                n == data@.len(),
                pos <= n,
                spec_sign_init(data@) == spec_sign_init_from(
                    data@,
                    pos as int,
                    SignInitView { indices: indices@, index, hash: hash@ },
                ),
            decreases n - pos,
        {
            match decode_key(data, pos) {
                None => {
                    return Err(ProtocolError::MalformedInit);
                },
                Some((tag, wire_type, body)) => {
                    if tag == 1 && wire_type == WireType::LengthDelimited {
                        match decode_varint(data, body) {
                            None => {
                                return Err(ProtocolError::MalformedInit);
                            },
                            Some((len, start)) => {
                                let left: usize = n - start;
                                if len > left as u64 {
                                    return Err(ProtocolError::MalformedInit);
                                }
                                let end: usize = start + len as usize;
                                if !decode_packed(data, start, end, &mut indices) {
                                    return Err(ProtocolError::MalformedInit);
                                }
                                pos = end;
                            },
                        }
                    } else if tag == 1 || tag == 2 {
                        if wire_type != WireType::Varint {
                            return Err(ProtocolError::MalformedInit);
                        }
                        match decode_varint(data, body) {
                            None => {
                                return Err(ProtocolError::MalformedInit);
                            },
                            Some((v, next)) => {
                                if tag == 1 {
                                    indices.push(low32(v));
                                } else {
                                    index = low32(v);
                                }
                                pos = next;
                            },
                        }
                    } else if tag == 3 {
                        if wire_type != WireType::LengthDelimited {
                            return Err(ProtocolError::MalformedInit);
                        }
                        match decode_varint(data, body) {
                            None => {
                                return Err(ProtocolError::MalformedInit);
                            },
                            Some((len, start)) => {
                                let left: usize = n - start;
                                if len > left as u64 {
                                    return Err(ProtocolError::MalformedInit);
                                }
                                let end: usize = start + len as usize;
                                hash = slice_to_vec(slice_subrange(data, start, end));
                                pos = end;
                            },
                        }
                    } else {
                        match skip_field(data, body, wire_type, tag, RECURSION_LIMIT) {
                            None => {
                                return Err(ProtocolError::MalformedInit);
                            },
                            Some(next) => {
                                pos = next;
                            },
                        }
                    }
                },
            }
        }
        Ok(SignInit { indices, index, hash })
    }
}

} // verus!
