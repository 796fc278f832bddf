//! The protobuf wire format below the level of a message: field keys, wire
//! types, and how far an unknown field reaches.

use vstd::prelude::*;
use crate::varint::{decode_varint, lemma_decode_varint_bounds, spec_decode_varint};

verus! {

/// How a field's value is laid out behind its key.
#[derive(Clone, Copy, Debug, PartialEq, Eq, Structural)]
pub enum WireType {
    Varint,
    SixtyFourBit,
    LengthDelimited,
    StartGroup,
    EndGroup,
    ThirtyTwoBit,
}

/// How deep groups may nest inside an unknown field before decoding gives up.
pub const RECURSION_LIMIT: u32 = 100;

/// The wire type that the low three bits of a key stand for.
pub open spec fn spec_wire_type(code: nat) -> Option<WireType> {
    if code == 0 {
        Some(WireType::Varint)
    } else if code == 1 {
        Some(WireType::SixtyFourBit)
    } else if code == 2 {
        Some(WireType::LengthDelimited)
    } else if code == 3 {
        Some(WireType::StartGroup)
    } else if code == 4 {
        Some(WireType::EndGroup)
    } else if code == 5 {
        Some(WireType::ThirtyTwoBit)
    } else {
        None
    }
}

/// The field key that starts at `pos`: the field's number, its wire type, and
/// the position behind the key. A key is a varint that fits in 32 bits, whose
/// low three bits name a wire type and whose other bits are a number above 0.
pub open spec fn spec_decode_key(s: Seq<u8>, pos: int) -> Option<(u32, WireType, int)> {
    match spec_decode_varint(s, pos) {
        None => None,
        Some((key, next)) => if key > u32::MAX {
            None
        } else {
            match spec_wire_type(key % 8) {
                None => None,
                Some(wire_type) => if key / 8 < 1 {
                    None
                } else {
                    Some(((key / 8) as u32, wire_type, next))
                },
            }
        },
    }
}

/// The bytes left in `s` from `pos` on.
pub open spec fn spec_remaining(s: Seq<u8>, pos: int) -> nat {
    if pos <= s.len() {
        (s.len() - pos) as nat
    } else {
        0
    }
}

/// The number of bytes that the value of a field takes up, from `pos`, right
/// behind its key. `depth` is how many levels of nesting are still allowed:
/// with none left, nothing is skipped.
pub open spec fn spec_field_len(s: Seq<u8>, pos: int, wire_type: WireType, tag: u32, depth: nat)
    -> Option<nat>
    decreases spec_remaining(s, pos), 1nat,
{
    if depth == 0 {
        None
    } else {
        match wire_type {
            WireType::Varint => match spec_decode_varint(s, pos) {
                None => None,
                Some((_, next)) => Some((next - pos) as nat),
            },
            WireType::SixtyFourBit => if s.len() - pos >= 8 {
                Some(8)
            } else {
                None
            },
            WireType::ThirtyTwoBit => if s.len() - pos >= 4 {
                Some(4)
            } else {
                None
            },
            WireType::LengthDelimited => match spec_decode_varint(s, pos) {
                None => None,
                Some((len, next)) => if len > s.len() - next {
                    None
                } else {
                    Some((next - pos + len) as nat)
                },
            },
            WireType::StartGroup => spec_group_len(s, pos, tag, depth),
            WireType::EndGroup => None,
        }
    }
}

/// The number of bytes from `pos`, inside the group of field `tag`, up to and
/// with the key that ends the group.
pub open spec fn spec_group_len(s: Seq<u8>, pos: int, tag: u32, depth: nat) -> Option<nat>
    decreases spec_remaining(s, pos), 0nat,
{
    match spec_decode_key(s, pos) {
        None => None,
        Some((inner_tag, inner_type, body)) => {
            proof {
                lemma_decode_key_bounds(s, pos);
            }
            if inner_type == WireType::EndGroup {
                if inner_tag != tag {
                    None
                } else {
                    Some((body - pos) as nat)
                }
            } else {
                match spec_field_len(s, body, inner_type, inner_tag, (depth - 1) as nat) {
                    None => None,
                    Some(inner) => match spec_group_len(s, body + inner, tag, depth) {
                        None => None,
                        Some(rest) => Some((body - pos + inner + rest) as nat),
                    },
                }
            }
        },
    }
}

/// A key ends behind `pos`, inside `s`.
pub proof fn lemma_decode_key_bounds(s: Seq<u8>, pos: int)
    ensures
        match spec_decode_key(s, pos) {
            Some((tag, _, next)) => 0 <= pos < next <= s.len() && tag >= 1,
            None => true,
        },
{
    lemma_decode_varint_bounds(s, pos);
}

/// Reads the field key that starts at `pos`.
pub fn decode_key(data: &[u8], pos: usize) -> (r: Option<(u32, WireType, usize)>)
    ensures
        match r {
            Some((tag, wire_type, next)) => spec_decode_key(data@, pos as int) == Some(
                (tag, wire_type, next as int),
            ) && pos < next <= data@.len(),
            None => spec_decode_key(data@, pos as int) is None,
        },
{
    match decode_varint(data, pos) {
        None => None,
        Some((key, next)) => {
            if key > 0xffff_ffff {
                return None;
            }
            let code: u64 = key % 8;
            let wire_type: WireType = if code == 0 {
                WireType::Varint
            } else if code == 1 {
                WireType::SixtyFourBit
            } else if code == 2 {
                WireType::LengthDelimited
            } else if code == 3 {
                WireType::StartGroup
            } else if code == 4 {
                WireType::EndGroup
            } else if code == 5 {
                WireType::ThirtyTwoBit
            } else {
                return None;
            };
            let tag: u64 = key / 8;
            if tag < 1 {
                return None;
            }
            Some((tag as u32, wire_type, next))
        },
    }
}

/// Steps over the value of a field whose key ends at `pos`, and gives the
/// position behind the value.
pub fn skip_field(data: &[u8], pos: usize, wire_type: WireType, tag: u32, depth: u32) -> (r: Option<
    usize,
>)
    ensures
        match r {
            Some(next) => spec_field_len(data@, pos as int, wire_type, tag, depth as nat) == Some(
                (next - pos) as nat,
            ) && pos <= next <= data@.len(),
            None => spec_field_len(data@, pos as int, wire_type, tag, depth as nat) is None,
        },
    decreases depth, 1nat,
{
    if depth == 0 {
        return None;
    }
    let n: usize = data.len();
    match wire_type {
        WireType::Varint => match decode_varint(data, pos) {
            None => None,
            Some((_, next)) => Some(next),
        },
        WireType::SixtyFourBit => if pos <= n && n - pos >= 8 {
            Some(pos + 8)
        } else {
            None
        },
        WireType::ThirtyTwoBit => if pos <= n && n - pos >= 4 {
            Some(pos + 4)
        } else {
            None
        },
        WireType::LengthDelimited => match decode_varint(data, pos) {
            None => None,
            Some((len, next)) => {
                let left: usize = n - next;
                if len > left as u64 {
                    None
                } else {
                    Some(next + len as usize)
                }
            },
        },
        WireType::StartGroup => skip_group(data, pos, tag, depth),
        WireType::EndGroup => None,
    }
}

/// The length of a whole group, from the length of what is left of it behind
/// the `done` bytes already stepped over.
spec fn spec_group_rest(rest: Option<nat>, done: nat) -> Option<nat> {
    match rest {
        None => None,
        Some(n) => Some(done + n),
    }
}

/// Steps over the fields of a group up to and with the key that ends it.
fn skip_group(data: &[u8], pos: usize, tag: u32, depth: u32) -> (r: Option<usize>)
    requires
        depth >= 1,
    ensures
        match r {
            Some(next) => spec_group_len(data@, pos as int, tag, depth as nat) == Some(
                (next - pos) as nat,
            ) && pos <= next <= data@.len(),
            None => spec_group_len(data@, pos as int, tag, depth as nat) is None,
        },
    decreases depth, 0nat,
{
    let mut cur: usize = pos;
    loop
        invariant
            depth >= 1,
            pos <= cur,
            cur <= data@.len() || cur == pos,
            spec_group_len(data@, pos as int, tag, depth as nat) == spec_group_rest(
                spec_group_len(data@, cur as int, tag, depth as nat),
                (cur - pos) as nat,
            ),
        decreases spec_remaining(data@, cur as int),
    {
        match decode_key(data, cur) {
            None => {
                return None;
            },
            Some((inner_tag, inner_type, body)) => {
                if inner_type == WireType::EndGroup {
                    if inner_tag != tag {
                        return None;
                    }
                    return Some(body);
                }
                match skip_field(data, body, inner_type, inner_tag, depth - 1) {
                    None => {
                        return None;
                    },
                    Some(next) => {
                        cur = next;
                    },
                }
            },
        }
    }
}

} // verus!
