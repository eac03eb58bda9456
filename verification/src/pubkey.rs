//! Public keys as 32 raw bytes.

use vstd::prelude::*;

verus! {

/// A 32-byte public key.
#[derive(Clone, Copy, Default, PartialEq, Eq, Hash, Debug)]
pub struct Pubkey(pub [u8; 32]);

impl Pubkey {
    /// The key made of the 32 bytes of `data`.
    pub fn from(data: &[u8]) -> (key: Pubkey)
        requires
            data@.len() == 32,
        ensures
            key.0@ == data@,
    {
        let mut bytes = [0u8; 32];
        let mut i: usize = 0;
        while i < 32
            invariant
                0 <= i <= 32,
                data@.len() == 32,
                forall|j: int| 0 <= j < i ==> bytes@[j] == data@[j],
            decreases 32 - i,
        {
            bytes[i] = data[i];
            i = i + 1;
        }
        proof {
            assert(bytes@ =~= data@);
        }
        Pubkey(bytes)
    }

    /// The key made of the bytes of `data`, if there are exactly 32 of them.
    pub fn try_from_slice(data: &[u8]) -> (key: Option<Pubkey>)
        ensures
            key is Some <==> data@.len() == 32,
            key matches Some(k) ==> k.0@ == data@,
    {
        if data.len() == 32 {
            Some(Pubkey::from(data))
        } else {
            None
        }
    }
}

} // verus!
