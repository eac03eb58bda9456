//! The reflector: it sends every datagram back to its sender, reversed, from
//! a second local port.

use vstd::prelude::*;

verus! {

/// The port the reflector listens on.
pub const LISTEN_PORT: u16 = 6666;

/// The port the reflector answers from.
pub const ANSWER_PORT: u16 = 7777;

/// The answer to `payload`: its bytes in reverse order.
pub fn reversed(payload: &[u8]) -> (out: Vec<u8>)
    ensures
        out@ == payload@.reverse(),
{
    let mut out: Vec<u8> = Vec::new();
    let n = payload.len();
    let mut i: usize = n;
    while i > 0
        invariant
            0 <= i <= n,
            n == payload@.len(),
            out@ == payload@.subrange(i as int, n as int).reverse(),
        decreases i,
    {
        i = i - 1;
        out.push(payload[i]);
        proof {
            assert(payload@.subrange(i as int, n as int).reverse() =~= payload@.subrange(
                i + 1,
                n as int,
            ).reverse().push(payload@[i as int]));
        }
    }
    proof {
        assert(payload@.subrange(0, n as int) =~= payload@);
    }
    out
}

/// Reversing an answer gives back the datagram it answered.
pub proof fn reversal_undoes_itself(payload: Seq<u8>)
    ensures
        payload.reverse().reverse() == payload,
{
    assert(payload.reverse().reverse() =~= payload);
}

} // verus!
