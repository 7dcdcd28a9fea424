//! Authenticated encryption of everything placed on the wire: one-shot
//! sealing with a random nonce, and a streaming mode that derives one nonce
//! per chunk from a random base nonce and a counter.
use vstd::prelude::*;

use vstd::array::array_index_get;
use vstd::slice::slice_subrange;

use chacha20poly1305::aead::{Aead, AeadCore, OsRng};
use chacha20poly1305::{ChaCha20Poly1305, Key, KeyInit, Nonce};

verus! {

/// Ciphertext for a given key, nonce and plaintext, as computed by the
/// ChaCha20-Poly1305 cipher (including its 16-byte authentication tag).
pub uninterp spec fn aead_ct(key: Seq<u8>, nonce: Seq<u8>, pt: Seq<u8>) -> Seq<u8>;

/// The longest plaintext the cipher can seal or open in one call: 64 bytes
/// for each of the 2^32 - 2 keystream blocks that remain once the first
/// block has keyed the authenticator. The cipher's own length check sits
/// one block higher, so staying within this bound is what keeps the
/// keystream from running out mid-call.
pub const AEAD_PT_LIMIT: u64 = 274877906816;

/// Failures of the encryption layer. Every failure is terminal for the
/// single operation: a wrong key or a corrupted ciphertext will not resolve
/// itself on retry.
#[derive(Clone, Copy, Debug, PartialEq, Eq, Structural)]
pub enum CryptoError {
    /// The input is too short to even carry a nonce.
    TooShort,
    /// The plaintext exceeds what the cipher can seal in one call.
    TooLong,
    /// The authentication tag did not verify: wrong key, corrupted
    /// ciphertext, or a chunk decrypted out of order.
    AuthenticationFailure,
}

/// Relies on chacha20poly1305's `Aead::encrypt` (with empty associated
/// data): deterministic in key, nonce and plaintext, and within the
/// keystream bound it always succeeds, returning the ciphertext with a
/// 16-byte tag appended. The bound is a precondition because past it the
/// underlying stream cipher faults instead of returning.
#[verifier::external_body]
fn aead_seal(key: &[u8; 32], nonce: &[u8], pt: &[u8]) -> (r: Result<Vec<u8>, CryptoError>)
    requires
        nonce@.len() == 12,
        pt@.len() <= AEAD_PT_LIMIT,
    ensures
        r is Ok,
        r matches Ok(ct) ==> ct@ == aead_ct(key@, nonce@, pt@) && ct@.len() == pt@.len() + 16,
{
    let cipher = ChaCha20Poly1305::new(Key::from_slice(key));
    cipher.encrypt(Nonce::from_slice(nonce), pt).map_err(|_| CryptoError::TooLong)
}

/// Relies on chacha20poly1305's `Aead::decrypt` (with empty associated
/// data): verifies the tag and inverts `Aead::encrypt` under the same key
/// and nonce, so it returns `Ok` with exactly the original plaintext on
/// anything `Aead::encrypt` produced, and whatever it returns re-encrypts
/// to the given ciphertext. The length precondition keeps any plaintext
/// the call could release within the keystream bound, past which the
/// underlying stream cipher faults instead of returning.
#[verifier::external_body]
fn aead_open(key: &[u8; 32], nonce: &[u8], ct: &[u8]) -> (r: Result<Vec<u8>, CryptoError>)
    requires
        nonce@.len() == 12,
        ct@.len() <= AEAD_PT_LIMIT + 16,
    ensures
        opens_all_preimages(key@, nonce@, ct@, r),
        r matches Ok(p) ==> p@.len() + 16 == ct@.len() && p@.len() <= AEAD_PT_LIMIT && ct@
            == aead_ct(key@, nonce@, p@),
        r matches Err(e) ==> e == CryptoError::AuthenticationFailure,
{
    let cipher = ChaCha20Poly1305::new(Key::from_slice(key));
    cipher.decrypt(Nonce::from_slice(nonce), ct).map_err(|_| CryptoError::AuthenticationFailure)
}

/// Relies on chacha20poly1305's `AeadCore::generate_nonce` with the
/// operating-system RNG: a fresh random 96-bit nonce, about whose value
/// nothing is promised.
#[verifier::external_body]
fn fresh_nonce() -> (r: [u8; 12])
    ensures
        r@.len() == 12,
{
    ChaCha20Poly1305::generate_nonce(&mut OsRng).into()
}

/// The result `r` recovers every plaintext that the cipher could have
/// sealed into `ct` under this key and nonce: decryption inverts
/// encryption exactly.
pub open spec fn opens_all_preimages(
    key: Seq<u8>,
    nonce: Seq<u8>,
    ct: Seq<u8>,
    r: Result<Vec<u8>, CryptoError>,
) -> bool {
    forall|pt: Seq<u8>|
        pt.len() <= AEAD_PT_LIMIT && ct == aead_ct(key, nonce, pt) ==> (r matches Ok(p) && p@
            == pt)
}

/// `out` is a possible result of one-shot encryption of `pt` under `key`:
/// a 12-byte nonce followed by the ciphertext the cipher computes for that
/// nonce, 16 bytes longer than the plaintext for its tag.
pub open spec fn sealed_payload(key: Seq<u8>, pt: Seq<u8>, out: Seq<u8>) -> bool {
    out.len() == pt.len() + 28 && out.skip(12) == aead_ct(key, out.take(12), pt)
}

/// One-shot authenticated encryption: draws a fresh random 96-bit nonce,
/// seals `plaintext` under `key`, and prepends the nonce to the ciphertext.
/// The output is 12 + len + 16 bytes long.
pub fn encrypt(key: &[u8; 32], plaintext: &[u8]) -> (r: Result<Vec<u8>, CryptoError>)
    ensures
        r is Ok <==> plaintext@.len() <= AEAD_PT_LIMIT,
        r matches Ok(out) ==> sealed_payload(key@, plaintext@, out@) && out@.len() == plaintext@.len()
            + 28,
        r matches Err(e) ==> e == CryptoError::TooLong,
{
    if plaintext.len() as u64 > AEAD_PT_LIMIT {
        return Err(CryptoError::TooLong);
    }
    let nonce = fresh_nonce();
    let ct = aead_seal(key, nonce.as_slice(), plaintext)?;
    let mut out: Vec<u8> = Vec::new();
    out.extend_from_slice(nonce.as_slice());
    out.extend_from_slice(ct.as_slice());
    proof {
        assert(out@.take(12) =~= nonce@);
        assert(out@.skip(12) =~= ct@);
    }
    Ok(out)
}

/// One-shot authenticated decryption of `nonce-then-ciphertext` input.
///
/// The success clause quantifies over every plaintext and nonce, so it
/// states the round trip: for any `input` that `encrypt` can produce from a
/// plaintext under `key`, the result is `Ok` with exactly that plaintext.
/// Conversely anything returned re-encrypts to the input, so no altered
/// plaintext is ever returned. Which error comes back is fixed by the
/// input alone: `TooShort` below 12 bytes, `AuthenticationFailure` on any
/// other failure.
pub fn decrypt(key: &[u8; 32], input: &[u8]) -> (r: Result<Vec<u8>, CryptoError>)
    ensures
        input@.len() < 12 ==> (r matches Err(e) && e == CryptoError::TooShort),
        forall|pt: Seq<u8>|
            pt.len() <= AEAD_PT_LIMIT && sealed_payload(key@, pt, input@) ==> (r matches Ok(p)
                && p@ == pt),
        r matches Ok(p) ==> sealed_payload(key@, p@, input@) && p@.len() <= AEAD_PT_LIMIT,
        input@.len() >= 12 ==> (r matches Err(e) ==> e == CryptoError::AuthenticationFailure),
        r matches Err(e) ==> e == CryptoError::TooShort || e == CryptoError::AuthenticationFailure,
{
    if input.len() < 12 {
        return Err(CryptoError::TooShort);
    }
    if (input.len() - 12) as u64 > AEAD_PT_LIMIT + 16 {
        // No sealing within the cipher's bound is this long, so the input
        // cannot be authentic; the cipher itself rejects such sizes too.
        return Err(CryptoError::AuthenticationFailure);
    }
    let nonce = slice_subrange(input, 0, 12);
    let ct = slice_subrange(input, 12, input.len());
    proof {
        assert(nonce@ =~= input@.take(12));
        assert(ct@ =~= input@.skip(12));
    }
    aead_open(key, nonce, ct)
}

/// The low 8 counter bytes, little-endian: byte `k` of the counter.
pub open spec fn counter_byte(c: u64, k: u64) -> u8
    recommends
        k < 8,
{
    ((c >> (8 * k)) & 0xFF) as u8
}

/// The per-chunk nonce of the streaming mode: the 12-byte base nonce with
/// the 64-bit counter XOR-ed, little-endian, into its last 8 bytes.
pub open spec fn stream_nonce(base: Seq<u8>, c: u64) -> Seq<u8>
    recommends
        base.len() == 12,
{
    Seq::new(12, |i: int| if i < 4 { base[i] } else { base[i] ^ counter_byte(c, (i - 4) as u64) })
}

/// Distinct counters derive distinct nonces from one base nonce, so within
/// one stream no nonce is ever used for two chunks.
pub proof fn lemma_stream_nonces_distinct(base: Seq<u8>, c1: u64, c2: u64)
    requires
        base.len() == 12,
        c1 != c2,
    ensures
        stream_nonce(base, c1) != stream_nonce(base, c2),
{
    if stream_nonce(base, c1) == stream_nonce(base, c2) {
        assert forall|k: u64| k < 8 implies counter_byte(c1, k) == counter_byte(c2, k) by {
            let i = (4 + k) as int;
            assert(stream_nonce(base, c1)[i] == stream_nonce(base, c2)[i]);
            let b = base[i];
            let x = counter_byte(c1, k);
            let y = counter_byte(c2, k);
            assert(b ^ x == b ^ y ==> x == y) by (bit_vector);
        }
        assert(counter_byte(c1, 0) == counter_byte(c2, 0));
        assert(counter_byte(c1, 1) == counter_byte(c2, 1));
        assert(counter_byte(c1, 2) == counter_byte(c2, 2));
        assert(counter_byte(c1, 3) == counter_byte(c2, 3));
        assert(counter_byte(c1, 4) == counter_byte(c2, 4));
        assert(counter_byte(c1, 5) == counter_byte(c2, 5));
        assert(counter_byte(c1, 6) == counter_byte(c2, 6));
        assert(counter_byte(c1, 7) == counter_byte(c2, 7));
        assert(((c1 >> (8 * 0u64)) & 0xFF) as u8 == ((c2 >> (8 * 0u64)) & 0xFF) as u8
            && ((c1 >> (8 * 1u64)) & 0xFF) as u8 == ((c2 >> (8 * 1u64)) & 0xFF) as u8
            && ((c1 >> (8 * 2u64)) & 0xFF) as u8 == ((c2 >> (8 * 2u64)) & 0xFF) as u8
            && ((c1 >> (8 * 3u64)) & 0xFF) as u8 == ((c2 >> (8 * 3u64)) & 0xFF) as u8
            && ((c1 >> (8 * 4u64)) & 0xFF) as u8 == ((c2 >> (8 * 4u64)) & 0xFF) as u8
            && ((c1 >> (8 * 5u64)) & 0xFF) as u8 == ((c2 >> (8 * 5u64)) & 0xFF) as u8
            && ((c1 >> (8 * 6u64)) & 0xFF) as u8 == ((c2 >> (8 * 6u64)) & 0xFF) as u8
            && ((c1 >> (8 * 7u64)) & 0xFF) as u8 == ((c2 >> (8 * 7u64)) & 0xFF) as u8
            ==> c1 == c2) by (bit_vector);
    }
}

/// Streaming encryption state: one cipher key, a random 12-byte base nonce
/// drawn once per stream, and a monotonically increasing chunk counter.
/// The same key and base nonce must never be reused for a second stream:
/// callers draw a fresh base nonce per stream.
pub struct StatefulEncryptor {
    key: [u8; 32],
    base_nonce: [u8; 12],
    counter: u64,
}

impl StatefulEncryptor {
    /// The cipher key this stream encrypts under.
    pub closed spec fn key_view(self) -> Seq<u8> {
        self.key@
    }

    /// The 12-byte base nonce of this stream.
    pub closed spec fn base_view(self) -> Seq<u8> {
        self.base_nonce@
    }

    /// How many chunks have been encrypted so far.
    pub closed spec fn counter_val(self) -> u64 {
        self.counter
    }

    /// A fresh stream starting at counter zero.
    pub fn new(key: &[u8; 32], iv: [u8; 12]) -> (r: StatefulEncryptor)
        ensures
            r.key_view() == key@,
            r.base_view() == iv@,
            r.counter_val() == 0,
    {
        StatefulEncryptor { key: *key, base_nonce: iv, counter: 0 }
    }

    /// Encrypts the next chunk under the nonce derived from the current
    /// counter, then advances the counter. Chunks must later be decrypted
    /// in exactly this order: the counter is implicit, not transmitted.
    pub fn encrypt(&mut self, plaintext: &[u8]) -> (r: Result<Vec<u8>, CryptoError>)
        requires
            old(self).counter_val() < u64::MAX,
        ensures
            final(self).key_view() == old(self).key_view(),
            final(self).base_view() == old(self).base_view(),
            r is Ok <==> plaintext@.len() <= AEAD_PT_LIMIT,
            r matches Ok(ct) ==> ct@ == aead_ct(
                old(self).key_view(),
                stream_nonce(old(self).base_view(), old(self).counter_val()),
                plaintext@,
            ) && ct@.len() == plaintext@.len() + 16 && final(self).counter_val() == old(
                self,
            ).counter_val() + 1,
            r matches Err(e) ==> final(self).counter_val() == old(self).counter_val() && e
                == CryptoError::TooLong,
    {
        if plaintext.len() as u64 > AEAD_PT_LIMIT {
            return Err(CryptoError::TooLong);
        }
        let nonce = derive_nonce(&self.base_nonce, self.counter);
        let ct = aead_seal(&self.key, nonce.as_slice(), plaintext)?;
        self.counter = self.counter + 1;
        Ok(ct)
    }
}

/// Streaming decryption state, the mirror of `StatefulEncryptor`: it derives
/// the same nonce sequence from the same key and base nonce, so it recovers
/// the chunks exactly when fed the ciphertexts in encryption order.
pub struct StatefulDecryptor {
    key: [u8; 32],
    base_nonce: [u8; 12],
    counter: u64,
}

impl StatefulDecryptor {
    /// The cipher key this stream decrypts under.
    pub closed spec fn key_view(self) -> Seq<u8> {
        self.key@
    }

    /// The 12-byte base nonce of this stream.
    pub closed spec fn base_view(self) -> Seq<u8> {
        self.base_nonce@
    }

    /// How many chunks have been decrypted so far.
    pub closed spec fn counter_val(self) -> u64 {
        self.counter
    }

    /// A fresh stream starting at counter zero.
    pub fn new(key: &[u8; 32], iv: [u8; 12]) -> (r: StatefulDecryptor)
        ensures
            r.key_view() == key@,
            r.base_view() == iv@,
            r.counter_val() == 0,
    {
        StatefulDecryptor { key: *key, base_nonce: iv, counter: 0 }
    }

    /// Decrypts the next chunk under the nonce derived from the current
    /// counter, then advances the counter.
    ///
    /// The success clause quantifies over every plaintext: a chunk that the
    /// matching encryptor sealed at the same counter is recovered exactly
    /// (the streaming round trip); a corrupted chunk, a wrong key, or
    /// out-of-order delivery fails authentication.
    pub fn decrypt(&mut self, ciphertext: &[u8]) -> (r: Result<Vec<u8>, CryptoError>)
        requires
            old(self).counter_val() < u64::MAX,
        ensures
            final(self).key_view() == old(self).key_view(),
            final(self).base_view() == old(self).base_view(),
            forall|pt: Seq<u8>|
                pt.len() <= AEAD_PT_LIMIT && ciphertext@.len() == pt.len() + 16 && ciphertext@
                    == aead_ct(
                    old(self).key_view(),
                    stream_nonce(old(self).base_view(), old(self).counter_val()),
                    pt,
                ) ==> (r matches Ok(p) && p@ == pt),
            r matches Ok(p) ==> ciphertext@ == aead_ct(
                old(self).key_view(),
                stream_nonce(old(self).base_view(), old(self).counter_val()),
                p@,
            ) && p@.len() + 16 == ciphertext@.len() && p@.len() <= AEAD_PT_LIMIT
                && final(self).counter_val() == old(self).counter_val() + 1,
            r matches Err(e) ==> final(self).counter_val() == old(self).counter_val() && e
                == CryptoError::AuthenticationFailure,
    {
        if ciphertext.len() as u64 > AEAD_PT_LIMIT + 16 {
            // No chunk the matching encryptor can seal is this long, so the
            // input cannot be authentic; the cipher itself rejects such
            // sizes too.
            return Err(CryptoError::AuthenticationFailure);
        }
        let nonce = derive_nonce(&self.base_nonce, self.counter);
        let pt = aead_open(&self.key, nonce.as_slice(), ciphertext)?;
        self.counter = self.counter + 1;
        Ok(pt)
    }
}

/// Builds the per-chunk nonce: the first 4 base bytes unchanged, the last 8
/// XOR-ed with the counter bytes, little-endian.
fn derive_nonce(base: &[u8; 12], counter: u64) -> (r: Vec<u8>)
    ensures
        r@ == stream_nonce(base@, counter),
        r@.len() == 12,
{
    let mut n: Vec<u8> = Vec::new();
    let mut i: usize = 0;
    while i < 4
        invariant
            i <= 4,
            n@.len() == i,
            forall|j: int| 0 <= j < i ==> n@[j] == base@[j],
        decreases 4 - i,
    {
        n.push(*array_index_get(base, i));
        i = i + 1;
    }
    let mut k: usize = 0;
    while k < 8
        invariant
            k <= 8,
            n@.len() == 4 + k,
            forall|j: int| 0 <= j < 4 ==> n@[j] == base@[j],
            forall|j: int|
                4 <= j < 4 + k ==> n@[j] == (base@[j] ^ counter_byte(counter, (j - 4) as u64)),
        decreases 8 - k,
    {
        let shift: u64 = 8 * (k as u64);
        let val: u8 = ((counter >> shift) & 0xFF) as u8;
        n.push(*array_index_get(base, 4 + k) ^ val);
        k = k + 1;
    }
    proof {
        assert(n@ =~= stream_nonce(base@, counter));
    }
    n
}

} // verus!
