//! Base-128 variable-length integers, as the protobuf wire format writes them:
//! seven bits to a byte, least significant group first, the top bit of a byte
//! set while more groups follow.

use vstd::prelude::*;

verus! {

/// 128 to the power `i`: the weight of the `i`-th group of a varint.
pub open spec fn pow128(i: nat) -> nat
    decreases i,
{
    if i == 0 {
        1
    } else {
        128 * pow128((i - 1) as nat)
    }
}

/// The bytes that encode `v`.
pub open spec fn spec_encode_varint(v: nat) -> Seq<u8>
    decreases v,
{
    if v < 128 {
        seq![v as u8]
    } else {
        seq![(v % 128 + 128) as u8] + spec_encode_varint(v / 128)
    }
}

/// Reads on in a varint that starts at `pos`, from its `i`-th byte, with the
/// groups before it summed up in `acc`. A varint has at most ten bytes, and the
/// tenth may only hold the one bit that is left of sixty-four.
pub open spec fn spec_scan_varint(s: Seq<u8>, pos: int, i: nat, acc: nat) -> Option<(nat, int)>
    decreases 10 - i,
{
    if i >= 10 || pos + i >= s.len() {
        None
    } else {
        let b = s[pos + i];
        let sum: nat = (acc + (b % 128) * pow128(i)) as nat;
        if b < 128 {
            if i == 9 && b >= 2 {
                None
            } else {
                Some((sum, pos + i + 1))
            }
        } else {
            spec_scan_varint(s, pos, i + 1, sum)
        }
    }
}

/// The varint that starts at `pos` in `s`: its value and the position behind
/// it, or `None` where the bytes there are no varint.
pub open spec fn spec_decode_varint(s: Seq<u8>, pos: int) -> Option<(nat, int)> {
    if pos < 0 {
        None
    } else {
        spec_scan_varint(s, pos, 0, 0)
    }
}

/// The first ten powers of 128 all fit in a `u64`.
pub proof fn lemma_pow128_values()
    ensures
        pow128(0) == 1,
        pow128(1) == 0x80,
        pow128(2) == 0x4000,
        pow128(3) == 0x20_0000,
        pow128(4) == 0x1000_0000,
        pow128(5) == 0x8_0000_0000,
        pow128(6) == 0x400_0000_0000,
        pow128(7) == 0x2_0000_0000_0000,
        pow128(8) == 0x100_0000_0000_0000,
        pow128(9) == 0x8000_0000_0000_0000,
{
    reveal_with_fuel(pow128, 11);
}

/// What a scan yields: a value below two to the sixty-fourth, and a position
/// behind at least one more byte, inside `s`.
pub proof fn lemma_scan_varint_bounds(s: Seq<u8>, pos: int, i: nat, acc: nat)
    requires
        0 <= pos,
        i <= 9,
        acc < pow128(i),
    ensures
        match spec_scan_varint(s, pos, i, acc) {
            Some((v, next)) => v <= u64::MAX && pos + i < next <= s.len() && next <= pos + 10,
            None => true,
        },
    decreases 10 - i,
{
    lemma_pow128_values();
    if pos + i < s.len() {
        let b = s[pos + i];
        let sum: nat = (acc + (b % 128) * pow128(i)) as nat;
        if b >= 128 && i < 9 {
            assert(pow128(i + 1) == 128 * pow128(i));
            assert(sum < pow128(i + 1)) by (nonlinear_arith)
                requires
                    sum == acc + (b % 128) * pow128(i),
                    acc < pow128(i),
                    (b % 128) <= 127,
                    pow128(i + 1) == 128 * pow128(i),
            ;
            lemma_scan_varint_bounds(s, pos, i + 1, sum);
        } else if b < 128 && !(i == 9 && b >= 2) {
            assert(sum <= u64::MAX) by {
                if i == 9 {
                    assert(b % 128 <= 1);
                    assert((b % 128) * pow128(i) <= 0x8000_0000_0000_0000) by (nonlinear_arith)
                        requires
                            (b % 128) <= 1,
                            pow128(i) == 0x8000_0000_0000_0000,
                    ;
                } else {
                    assert(pow128(i) <= 0x100_0000_0000_0000);
                    assert((b % 128) * pow128(i) <= 127 * 0x100_0000_0000_0000) by (nonlinear_arith)
                        requires
                            (b % 128) <= 127,
                            pow128(i) <= 0x100_0000_0000_0000,
                    ;
                }
            }
        }
    }
}

/// A decoded varint fits in a `u64` and ends behind `pos`, inside `s`.
pub proof fn lemma_decode_varint_bounds(s: Seq<u8>, pos: int)
    ensures
        match spec_decode_varint(s, pos) {
            Some((v, next)) => v <= u64::MAX && 0 <= pos < next <= s.len() && next <= pos + 10,
            None => true,
        },
{
    if pos >= 0 {
        lemma_scan_varint_bounds(s, pos, 0, 0);
    }
}

/// An encoding has at least one byte.
pub proof fn lemma_encode_varint_len(v: nat)
    ensures
        spec_encode_varint(v).len() >= 1,
    decreases v,
{
    if v >= 128 {
        lemma_encode_varint_len(v / 128);
    }
}

/// Scanning an encoding gives the encoded value back. The encoding of `v`
/// stands in `s` from the `i`-th byte of the varint on; the value must fit in
/// what is left of sixty-four bits there.
pub proof fn lemma_scan_encoded(s: Seq<u8>, pos: int, i: nat, acc: nat, v: nat)
    requires
        0 <= pos,
        i <= 9,
        v * pow128(i) <= u64::MAX,
        pos + i + spec_encode_varint(v).len() <= s.len(),
        forall|j: int|
            0 <= j < spec_encode_varint(v).len() ==> s[pos + i + j] == #[trigger] spec_encode_varint(
                v,
            )[j],
    ensures
        spec_scan_varint(s, pos, i, acc) == Some(
            ((acc + v * pow128(i)) as nat, pos + i + spec_encode_varint(v).len()),
        ),
    decreases v,
{
    lemma_pow128_values();
    lemma_encode_varint_len(v);
    let enc = spec_encode_varint(v);
    assert(s[pos + i + 0] == enc[0]);
    if v < 128 {
        assert(enc[0] == v as u8);
        assert(enc.len() == 1);
        if i == 9 {
            assert(v < 2) by (nonlinear_arith)
                requires
                    v * pow128(i) <= u64::MAX,
                    pow128(i) == 0x8000_0000_0000_0000,
            ;
        }
    } else {
        let rest = spec_encode_varint(v / 128);
        assert(enc == seq![(v % 128 + 128) as u8] + rest);
        assert(enc[0] == (v % 128 + 128) as u8);
        assert(enc.len() == 1 + rest.len());
        let b = s[pos + i];
        assert(b >= 128);
        assert(b % 128 == v % 128);
        assert(i <= 8) by {
            if i == 9 {
                assert(v * pow128(i) >= 128 * 0x8000_0000_0000_0000) by (nonlinear_arith)
                    requires
                        v >= 128,
                        pow128(i) == 0x8000_0000_0000_0000,
                ;
            }
        }
        assert(pow128(i + 1) == 128 * pow128(i));
        assert((v / 128) * pow128(i + 1) <= v * pow128(i)) by (nonlinear_arith)
            requires
                pow128(i + 1) == 128 * pow128(i),
                v >= 0,
        ;
        assert forall|j: int| 0 <= j < rest.len() implies s[pos + (i + 1) + j] == #[trigger] rest[j] by {
            assert(s[pos + i + (j + 1)] == enc[j + 1]);
            assert(enc[j + 1] == rest[j]);
        }
        let sum: nat = (acc + (b % 128) * pow128(i)) as nat;
        lemma_scan_encoded(s, pos, i + 1, sum, v / 128);
        assert(sum + (v / 128) * pow128(i + 1) == acc + v * pow128(i)) by (nonlinear_arith)
            requires
                sum == acc + (v % 128) * pow128(i),
                pow128(i + 1) == 128 * pow128(i),
                v >= 0,
        ;
    }
}

/// Decoding behind `before` what was encoded there gives the value back, with
/// whatever follows.
pub proof fn lemma_varint_round_trip(v: u64, before: Seq<u8>, after: Seq<u8>)
    ensures
        spec_decode_varint(before + spec_encode_varint(v as nat) + after, before.len() as int)
            == Some((v as nat, (before.len() + spec_encode_varint(v as nat).len()) as int)),
{
    lemma_pow128_values();
    let enc = spec_encode_varint(v as nat);
    let s = before + enc + after;
    lemma_scan_encoded(s, before.len() as int, 0, 0, v as nat);
}

/// Appends the encoding of `v` to `out`.
pub fn encode_varint(v: u64, out: &mut Vec<u8>)
    ensures
        final(out)@ == old(out)@ + spec_encode_varint(v as nat),
{
    let ghost start = out@;
    let mut rest: u64 = v;
    while rest >= 128
        invariant
            start + spec_encode_varint(v as nat) == out@ + spec_encode_varint(rest as nat),
        decreases rest,
    {
        let ghost before = out@;
        out.push((rest % 128 + 128) as u8);
        proof {
            assert(spec_encode_varint(rest as nat) == seq![(rest % 128 + 128) as u8]
                + spec_encode_varint((rest / 128) as nat));
            assert(before + spec_encode_varint(rest as nat) =~= out@ + spec_encode_varint(
                (rest / 128) as nat,
            ));
        }
        rest = rest / 128;
    }
    let ghost before = out@;
    out.push(rest as u8);
    proof {
        assert(before + spec_encode_varint(rest as nat) =~= out@);
    }
}

/// Reads the varint that starts at `pos`.
pub fn decode_varint(data: &[u8], pos: usize) -> (r: Option<(u64, usize)>)
    ensures
        match r {
            Some((v, next)) => spec_decode_varint(data@, pos as int) == Some(
                (v as nat, next as int),
            ) && pos < next <= data@.len(),
            None => spec_decode_varint(data@, pos as int) is None,
        },
{
    let n: usize = data.len();
    if pos >= n {
        return None;
    }
    let avail: usize = n - pos;
    let mut i: usize = 0;
    let mut acc: u64 = 0;
    let mut mult: u64 = 1;
    proof {
        lemma_pow128_values();
    }
    while i < 10 && i < avail
        invariant
            n == data@.len(),
            pos + avail == n,
            i <= 10,
            i < 10 ==> mult == pow128(i as nat),
            i < 10 ==> acc < pow128(i as nat),
            spec_decode_varint(data@, pos as int) == spec_scan_varint(
                data@,
                pos as int,
                i as nat,
                acc as nat,
            ),
        decreases 10 - i,
    {
        let b: u8 = data[pos + i];
        let low: u8 = b % 128;
        if i == 9 && b >= 2 {
            proof {
                let sum: nat = (acc + (b % 128) * pow128(9)) as nat;
                assert(spec_scan_varint(data@, pos as int, 10, sum) is None);
            }
            return None;
        }
        proof {
            lemma_pow128_values();
            lemma_scan_varint_bounds(data@, pos as int, i as nat, acc as nat);
            if i == 9 {
                assert(low * mult <= 0x8000_0000_0000_0000) by (nonlinear_arith)
                    requires
                        low <= 1,
                        mult == 0x8000_0000_0000_0000,
                ;
            } else {
                assert(mult <= 0x100_0000_0000_0000);
                assert(low * mult <= 127 * 0x100_0000_0000_0000) by (nonlinear_arith)
                    requires
                        low <= 127,
                        mult <= 0x100_0000_0000_0000,
                ;
                assert(pow128((i + 1) as nat) == 128 * pow128(i as nat));
                assert(acc + low * mult < pow128((i + 1) as nat)) by (nonlinear_arith)
                    requires
                        acc < mult,
                        low <= 127,
                        pow128((i + 1) as nat) == 128 * mult,
                ;
            }
        }
        acc = acc + (low as u64) * mult;
        if b < 128 {
            return Some((acc, pos + i + 1));
        }
        i = i + 1;
        if i < 10 {
            mult = mult * 128;
        }
    }
    None
}

} // verus!
