//! Moving bytes about.

use vstd::prelude::*;

verus! {

/// Appends `bytes` to `out`.
pub fn append(out: &mut Vec<u8>, bytes: &[u8])
    ensures
        final(out)@ == old(out)@ + bytes@,
{
    let ghost start = out@;
    let mut j: usize = 0;
    while j < bytes.len()
        invariant
            j <= bytes@.len(),
            out@ == start + bytes@.take(j as int),
        decreases bytes@.len() - j,
    {
        out.push(bytes[j]);
        proof {
            assert(bytes@.take(j as int).push(bytes@[j as int]) =~= bytes@.take(j + 1));
            assert(out@ =~= start + bytes@.take(j + 1));
        }
        j = j + 1;
    }
    proof {
        assert(bytes@.take(j as int) =~= bytes@);
    }
}

} // verus!
