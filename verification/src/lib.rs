//! NAT traversal toolkit: the wire protocol of the sniffer, the helper and the
//! breaker, the decisions each of them takes on a datagram, and the node
//! configuration.

pub mod addr;
pub mod wire;
pub mod sniffer;
pub mod breaker;
pub mod helper;
pub mod echo;
pub mod yaml;
pub mod paths;
pub mod config;
pub mod websocket;
pub mod helper_config;
pub mod node;
pub mod pubkey;
pub mod greeting;

use vstd::prelude::*;

verus! {

} // verus!
