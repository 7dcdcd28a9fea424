//! Pairing: a password-authenticated key exchange that turns a shared
//! human-memorable password into a 32-byte cluster key. Both sides use the
//! same fixed protocol identity, so either side can initiate.
use vstd::prelude::*;

use spake2::{Ed25519Group, Identity, Password, Spake2};

verus! {

/// Handshake verification failures. Pairing failures are surfaced to the
/// user and never retried automatically.
#[derive(Clone, Copy, Debug, PartialEq, Eq, Structural)]
pub enum PairingError {
    /// The inbound handshake message does not have the protocol's length.
    WrongLength,
    /// The inbound message was produced for the wrong protocol side.
    BadSide,
    /// The inbound message does not decode to a valid group element.
    CorruptMessage,
}

/// Whether 32 bytes are a valid encoding of an element of the Ed25519
/// group, as spake2's `Ed25519Group::bytes_to_element` (edwards point
/// decompression) decides it; a deterministic function of the bytes alone.
pub uninterp spec fn decodes_group_element(b: Seq<u8>) -> bool;

/// Local state of one pairing exchange between `start` and `finish`. Every
/// state this library creates is for the symmetric side of the protocol.
/// It wraps spake2's `Spake2<Ed25519Group>` protocol state, whose
/// trait-bounded type parameter keeps it from being declared to the
/// verifier, so the whole holder is opaque.
#[verifier::external_body]
pub struct SpakeState {
    spake: Spake2<Ed25519Group>,
}

/// Relies on spake2's `Spake2::<Ed25519Group>::start_symmetric`: begins a
/// symmetric-side exchange seeded by the password; the outbound message is
/// the side byte 0x53 ('S') followed by 32 bytes that compress a curve
/// point, so they always decode back to a group element.
#[verifier::external_body]
fn spake_start(password: &str, identity: &str) -> (r: (SpakeState, Vec<u8>))
    ensures
        r.1@.len() == 33,
        r.1@[0] == 0x53u8,
        decodes_group_element(r.1@.skip(1)),
{
    let (spake, msg) = Spake2::<Ed25519Group>::start_symmetric(
        &Password::new(password.as_bytes()),
        &Identity::new(identity.as_bytes()),
    );
    (SpakeState { spake }, msg)
}

/// Relies on spake2's `Spake2::finish` on a symmetric-side state (the only
/// kind this library constructs): it succeeds exactly on a 33-byte message
/// with the symmetric side byte whose element bytes decode to a group
/// element, and then derives a 32-byte shared secret; the wrong length,
/// the wrong side and a non-decoding element are rejected as such.
#[verifier::external_body]
fn spake_finish(state: SpakeState, inbound: &[u8]) -> (r: Result<Vec<u8>, PairingError>)
    ensures
        r is Ok <==> (inbound@.len() == 33 && inbound@[0] == 0x53u8 && decodes_group_element(
            inbound@.skip(1),
        )),
        inbound@.len() != 33 <==> (r matches Err(e) && e == PairingError::WrongLength),
        (inbound@.len() == 33 && inbound@[0] != 0x53u8) <==> (r matches Err(e) && e
            == PairingError::BadSide),
        r matches Ok(k) ==> k@.len() == 32,
        r matches Err(e) ==> e == PairingError::WrongLength || e == PairingError::BadSide || e
            == PairingError::CorruptMessage,
{
    match state.spake.finish(inbound) {
        Ok(k) => Ok(k),
        Err(spake2::Error::WrongLength) => Err(PairingError::WrongLength),
        Err(spake2::Error::BadSide) => Err(PairingError::BadSide),
        Err(spake2::Error::CorruptMessage) => Err(PairingError::CorruptMessage),
    }
}

/// Starts a pairing exchange from the shared password: returns the local
/// protocol state and the outbound handshake message (33 bytes: the
/// symmetric side byte followed by a 32-byte group element). The peer
/// identifiers play no role in the symmetric exchange; both sides run under
/// one fixed protocol identity. The element bytes of the message always
/// decode to a group element, so a genuine peer message is never rejected
/// by `finish_spake2` for framing or decoding reasons.
pub fn start_spake2(password: &str, _id_a: &str, _id_b: &str) -> (r: (SpakeState, Vec<u8>))
    ensures
        r.1@.len() == 33,
        r.1@[0] == 0x53u8,
        decodes_group_element(r.1@.skip(1)),
{
    spake_start(password, "clustercut-connect")
}

/// Completes a pairing exchange with the peer's inbound handshake message.
/// It succeeds exactly on a well-framed message whose element bytes decode
/// to a group element — in particular on everything `start_spake2`
/// produces — and the shared secret then has exactly the cluster-key
/// length, so it is used as the cluster key directly. A message of the
/// wrong length or for the wrong side, or one that fails group-element
/// validation, is the matching `PairingError`.
pub fn finish_spake2(state: SpakeState, inbound_msg: &[u8]) -> (r: Result<Vec<u8>, PairingError>)
    ensures
        r is Ok <==> (inbound_msg@.len() == 33 && inbound_msg@[0] == 0x53u8
            && decodes_group_element(inbound_msg@.skip(1))),
        inbound_msg@.len() != 33 <==> (r matches Err(e) && e == PairingError::WrongLength),
        (inbound_msg@.len() == 33 && inbound_msg@[0] != 0x53u8) <==> (r matches Err(e) && e
            == PairingError::BadSide),
        r matches Ok(k) ==> crate::valid_key(k@),
        r matches Err(e) ==> e == PairingError::WrongLength || e == PairingError::BadSide || e
            == PairingError::CorruptMessage,
{
    spake_finish(state, inbound_msg)
}

} // verus!
