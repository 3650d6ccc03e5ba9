//! The cryptographic primitives, taken from the RustCrypto and dalek crates.
//!
//! Each primitive is a function of its inputs, named by a spec function; keys, nonces and
//! messages are plain bytes. Randomness comes from one function only.

use chacha20poly1305::aead::Aead;
use chacha20poly1305::{ChaCha20Poly1305, Key, KeyInit, Nonce};
use hkdf::Hkdf;
use ml_kem::kem::{Decapsulate, DecapsulationKey, EncapsulationKey};
use ml_kem::{EncapsulateDeterministic, EncodedSizeUser, KemCore, MlKem768, MlKem768Params};
use rand_core::{OsRng, RngCore};
use sha2::{Digest, Sha256};
use vstd::prelude::*;
use x25519_dalek::{PublicKey, StaticSecret};

verus! {

/// The longest plaintext that one nonce can encrypt: 64 bytes for each value of the 32-bit block
/// counter but the first and the last.
pub const MAX_PLAINTEXT: u64 = 274877906816;

/// The SHA-256 digest of `data`.
pub uninterp spec fn sha256_of(data: Seq<u8>) -> Seq<u8>;

/// The first 32 bytes that HKDF-SHA256 without salt expands from `ikm` for `info`.
pub uninterp spec fn hkdf_of(ikm: Seq<u8>, info: Seq<u8>) -> Seq<u8>;

/// The ChaCha20-Poly1305 ciphertext, with its tag, of `plaintext`, without associated data.
pub uninterp spec fn sealed(key: Seq<u8>, nonce: Seq<u8>, plaintext: Seq<u8>) -> Seq<u8>;

/// The plaintext that a ChaCha20-Poly1305 ciphertext authenticates and decrypts to.
pub uninterp spec fn opened(key: Seq<u8>, nonce: Seq<u8>, ciphertext: Seq<u8>) -> Option<Seq<u8>>;

/// The X25519 public key of a secret key.
pub uninterp spec fn x25519_public(secret: Seq<u8>) -> Seq<u8>;

/// The X25519 shared secret of a secret key and a public key.
pub uninterp spec fn x25519_shared(secret: Seq<u8>, public: Seq<u8>) -> Seq<u8>;

/// The ML-KEM-768 key pair of the two seeds: decapsulation key, then encapsulation key.
pub uninterp spec fn kem_keypair(d: Seq<u8>, z: Seq<u8>) -> (Seq<u8>, Seq<u8>);

/// The ML-KEM-768 ciphertext and shared secret of an encapsulation key and a message.
pub uninterp spec fn kem_encapsulated(key: Seq<u8>, m: Seq<u8>) -> (Seq<u8>, Seq<u8>);

/// The ML-KEM-768 shared secret of a decapsulation key and a ciphertext.
pub uninterp spec fn kem_decapsulated(key: Seq<u8>, ciphertext: Seq<u8>) -> Seq<u8>;

/// `sha2::Sha256::digest`: the digest is a function of the data.
#[verifier::external_body]
pub(crate) fn sha256(data: &[u8]) -> (digest: [u8; 32])
    ensures
        digest@ == sha256_of(data@),
{
    Sha256::digest(data).into()
}

/// `hkdf::Hkdf::<Sha256>::new` without salt, then `expand` to 32 bytes: the output is a function
/// of the key material and the info, and at this length expansion does not fail.
#[verifier::external_body]
pub(crate) fn hkdf_expand(ikm: &[u8], info: &[u8]) -> (okm: [u8; 32])
    ensures
        okm@ == hkdf_of(ikm@, info@),
{
    let mut okm = [0u8; 32];
    Hkdf::<Sha256>::new(None, ikm).expand(info, &mut okm).expect("HKDF expansion failed");
    okm
}

/// `ChaCha20Poly1305::encrypt`: the ciphertext is a function of the key, the nonce and the
/// plaintext, is 16 bytes longer than the plaintext, and opens to it under the same key and
/// nonce.
#[verifier::external_body]
pub(crate) fn chacha_seal(key: &[u8; 32], nonce: &[u8; 12], plaintext: &[u8]) -> (ciphertext: Vec<
    u8,
>)
    requires
        plaintext@.len() <= MAX_PLAINTEXT,
    ensures
        ciphertext@ == sealed(key@, nonce@, plaintext@),
        ciphertext@.len() == plaintext@.len() + 16,
        opened(key@, nonce@, ciphertext@) == Some(plaintext@),
{
    let cipher = ChaCha20Poly1305::new(Key::from_slice(key));
    cipher.encrypt(Nonce::from_slice(nonce), plaintext).expect("encryption failure")
}

/// `ChaCha20Poly1305::decrypt`: whether the ciphertext authenticates, and the plaintext, are a
/// function of the key, the nonce and the ciphertext; the plaintext is 16 bytes shorter. It
/// authenticates exactly where it is what some plaintext of that length is sealed to, and that is
/// the plaintext then.
#[verifier::external_body]
pub(crate) fn chacha_open(key: &[u8; 32], nonce: &[u8; 12], ciphertext: &[u8]) -> (plaintext:
    Option<Vec<u8>>)
    requires
        ciphertext@.len() <= MAX_PLAINTEXT + 16,
    ensures
        match plaintext {
            Some(bytes) => opened(key@, nonce@, ciphertext@) == Some(bytes@) && bytes@.len() + 16
                == ciphertext@.len(),
            None => opened(key@, nonce@, ciphertext@) is None,
        },
        forall|bytes: Seq<u8>|
            bytes.len() + 16 == ciphertext@.len() ==> (ciphertext@ == #[trigger] sealed(
                key@,
                nonce@,
                bytes,
            ) <==> plaintext is Some && plaintext->Some_0@ == bytes),
{
    let cipher = ChaCha20Poly1305::new(Key::from_slice(key));
    cipher.decrypt(Nonce::from_slice(nonce), ciphertext).ok()
}

/// `x25519_dalek::PublicKey::from(&StaticSecret)`: the public key is a function of the secret
/// bytes. The Diffie-Hellman function commutes: what any other secret shares with this public
/// key is what this secret shares with the other's public key.
#[verifier::external_body]
pub(crate) fn x25519_public_key(secret: &[u8; 32]) -> (public: [u8; 32])
    ensures
        public@ == x25519_public(secret@),
        forall|other: Seq<u8>|
            other.len() == 32 ==> #[trigger] x25519_shared(other, public@) == x25519_shared(
                secret@,
                x25519_public(other),
            ),
{
    PublicKey::from(&StaticSecret::from(*secret)).to_bytes()
}

/// `x25519_dalek::StaticSecret::diffie_hellman`: the shared secret is a function of the secret
/// bytes and the public key's bytes.
#[verifier::external_body]
pub(crate) fn x25519_diffie_hellman(secret: &[u8; 32], public: &[u8; 32]) -> (shared: [u8; 32])
    ensures
        shared@ == x25519_shared(secret@, public@),
{
    StaticSecret::from(*secret).diffie_hellman(&PublicKey::from(*public)).to_bytes()
}

/// `ml_kem::MlKem768::generate_deterministic`: both keys, as encoded bytes, are a function of
/// the two seeds.
#[verifier::external_body]
pub(crate) fn kem_generate(d: &[u8; 32], z: &[u8; 32]) -> (keys: ([u8; 2400], [u8; 1184]))
    ensures
        (keys.0@, keys.1@) == kem_keypair(d@, z@),
{
    let (dk, ek) = MlKem768::generate_deterministic(d.into(), z.into());
    (dk.as_bytes().into(), ek.as_bytes().into())
}

/// `ml_kem`'s `encapsulate_deterministic` on an encoded encapsulation key: the ciphertext and the
/// shared secret are a function of the key's bytes and the message, and there is no failure.
#[verifier::external_body]
pub(crate) fn kem_encapsulate(key: &[u8; 1184], m: &[u8; 32]) -> (r: Result<
    ([u8; 1088], [u8; 32]),
    (),
>)
    ensures
        r is Ok,
        (r->Ok_0.0@, r->Ok_0.1@) == kem_encapsulated(key@, m@),
{
    let key = EncapsulationKey::<MlKem768Params>::from_bytes(key.into());
    key.encapsulate_deterministic(m.into()).map(|(ct, ss)| (ct.into(), ss.into()))
}

/// `ml_kem`'s `decapsulate` on an encoded decapsulation key: the shared secret is a function of
/// the key's bytes and the ciphertext, and there is no failure (a ciphertext that was not made
/// for the key gives a secret of its own).
#[verifier::external_body]
pub(crate) fn kem_decapsulate(key: &[u8; 2400], ciphertext: &[u8; 1088]) -> (r: Result<
    [u8; 32],
    (),
>)
    ensures
        r is Ok,
        r->Ok_0@ == kem_decapsulated(key@, ciphertext@),
{
    let key = DecapsulationKey::<MlKem768Params>::from_bytes(key.into());
    key.decapsulate(ciphertext.into()).map(|ss| ss.into())
}

/// `rand_core::OsRng::fill_bytes`: `len` bytes from the operating system's random number
/// generator. Nothing is said of their values. Where the operating system has no randomness to
/// give, the call panics.
#[verifier::external_body]
pub(crate) fn os_random_bytes(len: usize) -> (bytes: Vec<u8>)
    ensures
        bytes@.len() == len,
{
    let mut bytes = vec![0u8; len];
    OsRng.fill_bytes(&mut bytes);
    bytes
}

} // verus!
