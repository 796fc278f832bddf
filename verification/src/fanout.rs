//! Fan-out: how the output of a round becomes one message per peer. The relay
//! expects a message for every other party in every round, so a payload meant
//! for all of them is sent as so many copies.

use vstd::prelude::*;
use vstd::slice::slice_to_vec;
use crate::framing::spec_payloads;

verus! {

/// `n` times the same payload.
pub open spec fn spec_broadcast(payload: Seq<u8>, n: nat) -> Seq<Seq<u8>> {
    Seq::new(n, |i: int| payload)
}

/// Makes `n` copies of one payload, one for each peer.
pub fn broadcast(payload: &Vec<u8>, n: usize) -> (out: Vec<Vec<u8>>)
    ensures
        spec_payloads(out@) == spec_broadcast(payload@, n as nat),
{
    let mut out: Vec<Vec<u8>> = Vec::new();
    let mut i: usize = 0;
    while i < n
        invariant
            i <= n,
            out@.len() == i,
            forall|k: int| 0 <= k < i ==> (#[trigger] out@[k])@ == payload@,
        decreases n - i,
    {
        out.push(slice_to_vec(payload.as_slice()));
        i = i + 1;
    }
    proof {
        assert(spec_payloads(out@) =~= spec_broadcast(payload@, n as nat));
    }
    out
}

/// Serializes one payload per peer, in the peers' order. The first payload
/// that does not serialize ends the work, and its error is the result.
pub fn unicast<T, E, F: Fn(&T) -> Result<Vec<u8>, E>>(payloads: &Vec<T>, serialize: F) -> (r: Result<
    Vec<Vec<u8>>,
    E,
>)
    requires
        forall|i: int| 0 <= i < payloads@.len() ==> call_requires(serialize, (&payloads@[i],)),
    ensures
        match r {
            Ok(out) => out@.len() == payloads@.len() && forall|i: int|
                0 <= i < payloads@.len() ==> call_ensures(
                    serialize,
                    (&payloads@[i],),
                    Ok(#[trigger] out@[i]),
                ),
            Err(e) => exists|i: int|
                0 <= i < payloads@.len() && call_ensures(
                    serialize,
                    (&#[trigger] payloads@[i],),
                    Err(e),
                ),
        },
{
    let mut out: Vec<Vec<u8>> = Vec::new();
    let mut i: usize = 0;
    while i < payloads.len()
        invariant
            i <= payloads@.len(),
            out@.len() == i,
            forall|k: int| 0 <= k < payloads@.len() ==> call_requires(serialize, (&payloads@[k],)),
            forall|k: int|
                0 <= k < i ==> call_ensures(serialize, (&payloads@[k],), Ok(#[trigger] out@[k])),
        decreases payloads@.len() - i,
    {
        match serialize(&payloads[i]) {
            Ok(bytes) => {
                out.push(bytes);
            },
            Err(e) => {
                return Err(e);
            },
        }
        i = i + 1;
    }
    Ok(out)
}

} // verus!
