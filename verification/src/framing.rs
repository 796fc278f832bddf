//! The envelope that carries a round's messages: an ordered list of opaque
//! byte strings, one per peer. On the wire it is a protobuf message with a
//! single repeated bytes field, number 1.

use vstd::prelude::*;
use vstd::slice::{slice_subrange, slice_to_vec};
use crate::bytes::append;
use crate::error::ProtocolError;
use crate::varint::{
    decode_varint,
    encode_varint,
    lemma_decode_varint_bounds,
    lemma_encode_varint_len,
    lemma_pow128_values,
    lemma_scan_encoded,
    spec_decode_varint,
    spec_encode_varint,
    spec_scan_varint,
};
use crate::wire::{
    decode_key,
    lemma_decode_key_bounds,
    skip_field,
    spec_decode_key,
    spec_field_len,
    spec_remaining,
    WireType,
    RECURSION_LIMIT,
};

verus! {

/// The key of field 1 with a length-delimited value.
pub const MESSAGE_KEY: u8 = 0x0a;

/// The byte strings that a list of vectors holds.
pub open spec fn spec_payloads(msgs: Seq<Vec<u8>>) -> Seq<Seq<u8>> {
    Seq::new(msgs.len(), |i: int| msgs[i]@)
}

/// One message on the wire: the key, the length, the bytes.
pub open spec fn spec_frame(msg: Seq<u8>) -> Seq<u8> {
    seq![MESSAGE_KEY] + spec_encode_varint(msg.len()) + msg
}

/// The envelope that holds `msgs`, in their order.
pub open spec fn spec_pack(msgs: Seq<Seq<u8>>) -> Seq<u8>
    decreases msgs.len(),
{
    if msgs.len() == 0 {
        Seq::empty()
    } else {
        spec_pack(msgs.drop_last()) + spec_frame(msgs.last())
    }
}

/// Reads the fields of an envelope from `pos` on, behind the messages `acc`
/// read so far. Field 1 must be length-delimited and adds a message; any
/// other field is stepped over.
pub open spec fn spec_unpack_from(s: Seq<u8>, pos: int, acc: Seq<Seq<u8>>) -> Option<Seq<Seq<u8>>>
    decreases spec_remaining(s, pos),
{
    if pos >= s.len() {
        Some(acc)
    } else {
        match spec_decode_key(s, pos) {
            None => None,
            Some((tag, wire_type, body)) => {
                proof {
                    lemma_decode_key_bounds(s, pos);
                    lemma_decode_varint_bounds(s, body);
                }
                if tag == 1 {
                    if wire_type != WireType::LengthDelimited {
                        None
                    } else {
                        match spec_decode_varint(s, body) {
                            None => None,
                            Some((len, start)) => if len > s.len() - start {
                                None
                            } else {
                                spec_unpack_from(
                                    s,
                                    start + len,
                                    acc.push(s.subrange(start, start + len)),
                                )
                            },
                        }
                    }
                } else {
                    match spec_field_len(s, body, wire_type, tag, RECURSION_LIMIT as nat) {
                        None => None,
                        Some(skipped) => spec_unpack_from(s, body + skipped, acc),
                    }
                }
            },
        }
    }
}

/// The messages that the envelope `s` holds, or `None` where `s` is no
/// envelope.
pub open spec fn spec_unpack(s: Seq<u8>) -> Option<Seq<Seq<u8>>> {
    spec_unpack_from(s, 0, Seq::empty())
}

/// The envelope of the first `k` messages is where the envelope of all of them
/// starts.
pub proof fn lemma_pack_prefix(msgs: Seq<Seq<u8>>, k: int)
    requires
        0 <= k <= msgs.len(),
    ensures
        spec_pack(msgs.take(k)).len() <= spec_pack(msgs).len(),
        spec_pack(msgs).take(spec_pack(msgs.take(k)).len() as int) == spec_pack(msgs.take(k)),
    decreases msgs.len(),
{
    if k == msgs.len() {
        assert(msgs.take(k) =~= msgs);
        assert(spec_pack(msgs).take(spec_pack(msgs).len() as int) =~= spec_pack(msgs));
    } else {
        let front = msgs.drop_last();
        assert(front.take(k) =~= msgs.take(k));
        lemma_pack_prefix(front, k);
        let short = spec_pack(msgs.take(k));
        assert(spec_pack(msgs) == spec_pack(front) + spec_frame(msgs.last()));
        assert(spec_pack(msgs).take(short.len() as int) =~= spec_pack(front).take(
            short.len() as int,
        ));
    }
}

/// Reading an envelope from behind its first `k` messages, with those
/// messages in hand, gives all the messages.
pub proof fn lemma_unpack_from_packed(msgs: Seq<Seq<u8>>, k: int)
    requires
        0 <= k <= msgs.len(),
        forall|i: int| 0 <= i < msgs.len() ==> (#[trigger] msgs[i]).len() <= u64::MAX,
    ensures
        spec_unpack_from(spec_pack(msgs), spec_pack(msgs.take(k)).len() as int, msgs.take(k))
            == Some(msgs),
    decreases msgs.len() - k,
{
    let s = spec_pack(msgs);
    let done = spec_pack(msgs.take(k));
    let pos = done.len() as int;
    lemma_pack_prefix(msgs, k);
    if k == msgs.len() {
        assert(msgs.take(k) =~= msgs);
    } else {
        let msg = msgs[k];
        let next_done = spec_pack(msgs.take(k + 1));
        let enc = spec_encode_varint(msg.len());
        lemma_pack_prefix(msgs, k + 1);
        lemma_encode_varint_len(msg.len());
        lemma_pow128_values();
        assert(msgs.take(k + 1).drop_last() =~= msgs.take(k));
        assert(msgs.take(k + 1).last() == msg);
        assert(next_done == done + spec_frame(msg));
        // The frame of `msg` stands in `s` at `pos`.
        assert forall|j: int| 0 <= j < spec_frame(msg).len() implies s[pos + j] == spec_frame(
            msg,
        )[j] by {
            assert(s.take(next_done.len() as int)[pos + j] == next_done[pos + j]);
        }
        assert(spec_frame(msg).len() == 1 + enc.len() + msg.len());
        assert(s[pos + 0] == spec_frame(msg)[0]);
        assert(s[pos] == MESSAGE_KEY);
        // The key.
        assert(spec_scan_varint(s, pos, 0, 0) == Some((10nat, pos + 1)));
        assert(spec_decode_key(s, pos) == Some((1u32, WireType::LengthDelimited, pos + 1)));
        // The length.
        assert forall|j: int| 0 <= j < enc.len() implies s[pos + 1 + 0 + j] == #[trigger] enc[j] by {
            assert(s[pos + (1 + j)] == spec_frame(msg)[1 + j]);
        }
        lemma_scan_encoded(s, pos + 1, 0, 0, msg.len());
        let start = pos + 1 + enc.len();
        assert(spec_decode_varint(s, pos + 1) == Some((msg.len(), start)));
        // The bytes.
        assert(s.subrange(start, start + msg.len()) =~= msg) by {
            assert forall|j: int| 0 <= j < msg.len() implies s[start + j] == msg[j] by {
                assert(s[pos + (1 + enc.len() + j)] == spec_frame(msg)[1 + enc.len() + j]);
            }
        }
        assert(msgs.take(k).push(msg) =~= msgs.take(k + 1));
        assert(start + msg.len() == next_done.len());
        lemma_unpack_from_packed(msgs, k + 1);
    }
}

/// Unpacking undoes packing: what was packed comes back, message for message
/// and byte for byte.
pub proof fn lemma_unpack_pack(msgs: Seq<Seq<u8>>)
    requires
        forall|i: int| 0 <= i < msgs.len() ==> (#[trigger] msgs[i]).len() <= u64::MAX,
    ensures
        spec_unpack(spec_pack(msgs)) == Some(msgs),
{
    lemma_unpack_from_packed(msgs, 0);
    assert(msgs.take(0) =~= Seq::<Seq<u8>>::empty());
}

/// Writes the envelope that holds `msgs`.
pub fn pack(msgs: &Vec<Vec<u8>>) -> (out: Vec<u8>)
    ensures
        out@ == spec_pack(spec_payloads(msgs@)),
        spec_unpack(out@) == Some(spec_payloads(msgs@)),
{
    let mut out: Vec<u8> = Vec::new();
    let mut i: usize = 0;
    while i < msgs.len()
        invariant
            i <= msgs@.len(),
            out@ == spec_pack(spec_payloads(msgs@).take(i as int)),
            forall|k: int| 0 <= k < i ==> (#[trigger] spec_payloads(msgs@)[k]).len() <= u64::MAX,
        decreases msgs@.len() - i,
    {
        let msg: &Vec<u8> = &msgs[i];
        let ghost before = out@;
        out.push(MESSAGE_KEY);
        encode_varint(msg.len() as u64, &mut out);
        append(&mut out, msg.as_slice());
        proof {
            let all = spec_payloads(msgs@);
            assert(all.take(i + 1).drop_last() =~= all.take(i as int));
            assert(all.take(i + 1).last() == msg@);
            assert(out@ =~= before + spec_frame(msg@));
        }
        i = i + 1;
    }
    proof {
        let all = spec_payloads(msgs@);
        assert(all.take(i as int) =~= all);
        lemma_unpack_pack(all);
    }
    out
}

/// Reads the messages out of an envelope.
pub fn unpack(data: &[u8]) -> (r: Result<Vec<Vec<u8>>, ProtocolError>)
    ensures
        match r {
            Ok(msgs) => spec_unpack(data@) == Some(spec_payloads(msgs@)),
            Err(e) => e == ProtocolError::MalformedFrame && spec_unpack(data@) is None,
        },
{
    let n: usize = data.len();
    let mut pos: usize = 0;
    let mut msgs: Vec<Vec<u8>> = Vec::new();
    proof {
        assert(spec_payloads(msgs@) =~= Seq::<Seq<u8>>::empty());
    }
    while pos < n
        invariant
            n == data@.len(),
            pos <= n,
            spec_unpack(data@) == spec_unpack_from(data@, pos as int, spec_payloads(msgs@)),
        decreases n - pos,
    {
        match decode_key(data, pos) {
            None => {
                return Err(ProtocolError::MalformedFrame);
            },
            Some((tag, wire_type, body)) => {
                if tag == 1 {
                    if wire_type != WireType::LengthDelimited {
                        return Err(ProtocolError::MalformedFrame);
                    }
                    match decode_varint(data, body) {
                        None => {
                            return Err(ProtocolError::MalformedFrame);
                        },
                        Some((len, start)) => {
                            let left: usize = n - start;
                            if len > left as u64 {
                                return Err(ProtocolError::MalformedFrame);
                            }
                            let end: usize = start + len as usize;
                            let msg: Vec<u8> = slice_to_vec(slice_subrange(data, start, end));
                            let ghost before = spec_payloads(msgs@);
                            msgs.push(msg);
                            proof {
                                assert(spec_payloads(msgs@) =~= before.push(
                                    data@.subrange(start as int, end as int),
                                ));
                            }
                            pos = end;
                        },
                    }
                } else {
                    match skip_field(data, body, wire_type, tag, RECURSION_LIMIT) {
                        None => {
                            return Err(ProtocolError::MalformedFrame);
                        },
                        Some(next) => {
                            pos = next;
                        },
                    }
                }
            },
        }
    }
    Ok(msgs)
}

} // verus!
