use clustercut::crypto::{decrypt, encrypt, CryptoError, StatefulDecryptor, StatefulEncryptor};

const KEY: [u8; 32] = [7u8; 32];
const OTHER_KEY: [u8; 32] = [8u8; 32];

#[test]
fn round_trip_recovers_plaintext() {
    let message = b"attack at dawn";
    let sealed = encrypt(&KEY, message).unwrap();
    assert_eq!(sealed.len(), 12 + message.len() + 16);
    let opened = decrypt(&KEY, &sealed).unwrap();
    assert_eq!(opened, message);
}

#[test]
fn round_trip_of_empty_plaintext() {
    let sealed = encrypt(&KEY, b"").unwrap();
    assert_eq!(sealed.len(), 28);
    let opened = decrypt(&KEY, &sealed).unwrap();
    assert!(opened.is_empty());
}

#[test]
fn wrong_key_fails_authentication() {
    let sealed = encrypt(&KEY, b"secret").unwrap();
    let r = decrypt(&OTHER_KEY, &sealed);
    assert_eq!(r, Err(CryptoError::AuthenticationFailure));
}

#[test]
fn bit_flip_fails_authentication() {
    let message = b"integrity matters";
    let sealed = encrypt(&KEY, message).unwrap();
    // Flip one bit in the ciphertext body.
    let mut body_flipped = sealed.clone();
    body_flipped[14] ^= 0x01;
    assert_eq!(decrypt(&KEY, &body_flipped), Err(CryptoError::AuthenticationFailure));
    // Flip one bit in the authentication tag.
    let mut tag_flipped = sealed.clone();
    let last = tag_flipped.len() - 1;
    tag_flipped[last] ^= 0x80;
    assert_eq!(decrypt(&KEY, &tag_flipped), Err(CryptoError::AuthenticationFailure));
    // Flip one bit in the nonce.
    let mut nonce_flipped = sealed;
    nonce_flipped[0] ^= 0x01;
    assert_eq!(decrypt(&KEY, &nonce_flipped), Err(CryptoError::AuthenticationFailure));
}

#[test]
fn short_input_is_rejected() {
    assert_eq!(decrypt(&KEY, b"tiny"), Err(CryptoError::TooShort));
    assert_eq!(decrypt(&KEY, &[0u8; 11]), Err(CryptoError::TooShort));
}

#[test]
fn each_encryption_draws_a_fresh_nonce() {
    let a = encrypt(&KEY, b"same message").unwrap();
    let b = encrypt(&KEY, b"same message").unwrap();
    assert_ne!(a[..12], b[..12]);
}

#[test]
fn stream_round_trip_in_order() {
    let base = [3u8; 12];
    let mut enc = StatefulEncryptor::new(&KEY, base);
    let mut dec = StatefulDecryptor::new(&KEY, base);
    let chunks: [&[u8]; 3] = [b"first chunk", b"second", b"third and last"];
    let mut sealed = Vec::new();
    for chunk in chunks.iter() {
        sealed.push(enc.encrypt(chunk).unwrap());
    }
    for (chunk, ct) in chunks.iter().zip(sealed.iter()) {
        let opened = dec.decrypt(ct).unwrap();
        assert_eq!(&opened, chunk);
    }
}

#[test]
fn stream_out_of_order_fails() {
    let base = [9u8; 12];
    let mut enc = StatefulEncryptor::new(&KEY, base);
    let first = enc.encrypt(b"one").unwrap();
    let second = enc.encrypt(b"two").unwrap();
    let mut dec = StatefulDecryptor::new(&KEY, base);
    // The second chunk under counter 0 uses the wrong nonce.
    assert_eq!(dec.decrypt(&second), Err(CryptoError::AuthenticationFailure));
    // The failed attempt did not advance the counter, so in-order delivery
    // still works from here.
    let opened = dec.decrypt(&first).unwrap();
    assert_eq!(opened, b"one");
    let opened = dec.decrypt(&second).unwrap();
    assert_eq!(opened, b"two");
}

#[test]
fn stream_with_wrong_base_nonce_fails() {
    let mut enc = StatefulEncryptor::new(&KEY, [1u8; 12]);
    let ct = enc.encrypt(b"payload").unwrap();
    let mut dec = StatefulDecryptor::new(&KEY, [2u8; 12]);
    assert_eq!(dec.decrypt(&ct), Err(CryptoError::AuthenticationFailure));
}

#[test]
fn stream_with_wrong_key_fails() {
    let base = [5u8; 12];
    let mut enc = StatefulEncryptor::new(&KEY, base);
    let ct = enc.encrypt(b"payload").unwrap();
    let mut dec = StatefulDecryptor::new(&OTHER_KEY, base);
    assert_eq!(dec.decrypt(&ct), Err(CryptoError::AuthenticationFailure));
}
