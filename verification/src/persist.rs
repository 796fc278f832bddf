//! The sealed form in which a session or a group descriptor is kept between
//! runs: a magic byte, the version of the layout, what is sealed, the number
//! of rounds done, and the bytes held, behind their length. Nothing may
//! follow the bytes, so a blob that was cut short or grew does not open.

use vstd::prelude::*;
use vstd::slice::{slice_subrange, slice_to_vec};
use crate::bytes::append;
use crate::varint::{
    decode_varint,
    encode_varint,
    lemma_encode_varint_len,
    lemma_pow128_values,
    lemma_scan_encoded,
    spec_decode_varint,
    spec_encode_varint,
};

verus! {

/// The first byte of every sealed blob.
pub const MAGIC: u8 = 0x4d;

/// The version of the layout.
pub const VERSION: u8 = 1;

/// Marks a sealed key generation.
pub const KIND_KEYGEN: u8 = 0;

/// Marks a sealed signing.
pub const KIND_SIGN: u8 = 1;

/// Marks a sealed group descriptor.
pub const KIND_GROUP: u8 = 2;

/// The sealed form of `body`, marked with `kind` and `round`.
pub open spec fn spec_seal(kind: u8, round: u8, body: Seq<u8>) -> Seq<u8> {
    seq![MAGIC, VERSION, kind, round] + spec_encode_varint(body.len()) + body
}

/// What a sealed blob holds: its kind, its round and its body; or `None`
/// where `s` is no sealed blob of this version.
pub open spec fn spec_unseal(s: Seq<u8>) -> Option<(u8, u8, Seq<u8>)> {
    if s.len() < 4 || s[0] != MAGIC || s[1] != VERSION {
        None
    } else {
        match spec_decode_varint(s, 4) {
            None => None,
            Some((len, start)) => if start + len != s.len() {
                None
            } else {
                Some((s[2], s[3], s.subrange(start, s.len() as int)))
            },
        }
    }
}

/// Opening what was sealed gives back what went in.
pub proof fn lemma_unseal_seal(kind: u8, round: u8, body: Seq<u8>)
    requires
        body.len() <= u64::MAX,
    ensures
        spec_unseal(spec_seal(kind, round, body)) == Some((kind, round, body)),
{
    let s = spec_seal(kind, round, body);
    let enc = spec_encode_varint(body.len());
    lemma_encode_varint_len(body.len());
    lemma_pow128_values();
    assert forall|j: int| 0 <= j < enc.len() implies s[4 + 0 + j] == #[trigger] enc[j] by {}
    lemma_scan_encoded(s, 4, 0, 0, body.len());
    assert(s.subrange((4 + enc.len()) as int, s.len() as int) =~= body);
}

/// Seals `body` under `kind` and `round`.
pub fn seal(kind: u8, round: u8, body: &[u8]) -> (out: Vec<u8>)
    ensures
        out@ == spec_seal(kind, round, body@),
        spec_unseal(out@) == Some((kind, round, body@)),
{
    let mut out: Vec<u8> = Vec::new();
    out.push(MAGIC);
    out.push(VERSION);
    out.push(kind);
    out.push(round);
    proof {
        assert(out@ =~= seq![MAGIC, VERSION, kind, round]);
    }
    encode_varint(body.len() as u64, &mut out);
    append(&mut out, body);
    proof {
        lemma_unseal_seal(kind, round, body@);
    }
    out
}

/// Opens a sealed blob.
pub fn unseal(data: &[u8]) -> (r: Option<(u8, u8, Vec<u8>)>)
    ensures
        match r {
            Some((kind, round, body)) => spec_unseal(data@) == Some((kind, round, body@)),
            None => spec_unseal(data@) is None,
        },
{
    let n: usize = data.len();
    if n < 4 || data[0] != MAGIC || data[1] != VERSION {
        return None;
    }
    match decode_varint(data, 4) {
        None => None,
        Some((len, start)) => {
            let left: usize = n - start;
            if len != left as u64 {
                return None;
            }
            let body: Vec<u8> = slice_to_vec(slice_subrange(data, start, n));
            Some((data[2], data[3], body))
        },
    }
}

} // verus!
