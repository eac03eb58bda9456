//! What a node tells about its user.

use vstd::prelude::*;

verus! {

/// A user's public identity.
pub struct UserInfo {
    /// The user's public key.
    pub pubkey: [u8; 32],
    /// The user's nick name.
    pub nick_name: String,
    /// The address the user's node can be reached at.
    pub address: String,
    /// Where the user's signature is stored.
    pub sig_path: String,
}

} // verus!
