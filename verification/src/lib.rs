//! Secure clipboard synchronization engine: change detection with echo
//! suppression, password-authenticated pairing, and authenticated encryption
//! of everything that is broadcast to paired devices.
pub mod content;
pub mod crypto;
pub mod dispatch;
pub mod event;
pub mod pairing;
pub mod tracker;
pub mod wire;

use vstd::prelude::*;

verus! {

/// A cluster key is exactly 32 bytes of symmetric secret.
pub open spec fn valid_key(k: Seq<u8>) -> bool {
    k.len() == 32
}

/// Accepts a candidate cluster key blob only when it has the exact
/// length required by the encryption layer.
pub fn accept_cluster_key(bytes: Vec<u8>) -> (r: Option<Vec<u8>>)
    ensures
        valid_key(bytes@) ==> r == Some(bytes),
        !valid_key(bytes@) ==> r is None,
{
    if bytes.len() == 32 {
        Some(bytes)
    } else {
        None
    }
}

} // verus!
