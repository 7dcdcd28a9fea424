use clustercut::crypto::{decrypt, encrypt, CryptoError};
use clustercut::pairing::{finish_spake2, start_spake2, PairingError};

fn as_key(bytes: &[u8]) -> [u8; 32] {
    let mut k = [0u8; 32];
    k.copy_from_slice(bytes);
    k
}

#[test]
fn same_password_yields_identical_keys() {
    let (state_a, msg_a) = start_spake2("hunter2", "alice", "bob");
    let (state_b, msg_b) = start_spake2("hunter2", "bob", "alice");
    assert_eq!(msg_a.len(), 33);
    assert_eq!(msg_b.len(), 33);
    let key_a = finish_spake2(state_a, &msg_b).unwrap();
    let key_b = finish_spake2(state_b, &msg_a).unwrap();
    assert_eq!(key_a.len(), 32);
    assert_eq!(key_a, key_b);
}

#[test]
fn different_passwords_never_pair_up() {
    // The exchange itself completes, but the two sides hold divergent
    // secrets, so the first authenticated message between them fails
    // instead of silently delivering under a shared key.
    let (state_a, msg_a) = start_spake2("right horse", "alice", "bob");
    let (state_b, msg_b) = start_spake2("wrong horse", "bob", "alice");
    let key_a = finish_spake2(state_a, &msg_b).unwrap();
    let key_b = finish_spake2(state_b, &msg_a).unwrap();
    assert_ne!(key_a, key_b);
    let sealed = encrypt(&as_key(&key_a), b"first contact").unwrap();
    assert_eq!(decrypt(&as_key(&key_b), &sealed), Err(CryptoError::AuthenticationFailure));
}

#[test]
fn handshake_message_is_symmetric_side() {
    let (_state, msg) = start_spake2("pw", "a", "b");
    assert_eq!(msg[0], 0x53);
}

#[test]
fn finish_rejects_wrong_length() {
    let (state, _msg) = start_spake2("pw", "a", "b");
    assert_eq!(finish_spake2(state, &[0u8; 5]), Err(PairingError::WrongLength));
    let (state, _msg) = start_spake2("pw", "a", "b");
    assert_eq!(finish_spake2(state, &[0x53; 34]), Err(PairingError::WrongLength));
}

#[test]
fn finish_rejects_wrong_side() {
    let (state, _msg) = start_spake2("pw", "a", "b");
    let mut inbound = vec![0x41u8];
    inbound.extend_from_slice(&[0u8; 32]);
    assert_eq!(finish_spake2(state, &inbound), Err(PairingError::BadSide));
}

#[test]
fn finish_rejects_corrupt_element() {
    let (state, _msg) = start_spake2("pw", "a", "b");
    // The y-coordinate 2 has no matching x on the curve, so this is not a
    // valid group-element encoding.
    let mut inbound = vec![0x53u8, 2u8];
    inbound.extend_from_slice(&[0u8; 31]);
    assert_eq!(finish_spake2(state, &inbound), Err(PairingError::CorruptMessage));
}
