use chacha20poly1305::aead::Aead;
use chacha20poly1305::{ChaCha20Poly1305, Key, KeyInit, Nonce};
use hkdf::Hkdf;
use ntz_proto::crypto_logic::{HybridHandshake, ReplayGuard, DEFAULT_REPLAY_WINDOW};
use ntz_proto::hex::{encode_hex, new_agent_id, random_token, sha256_hex};
use sha2::{Digest, Sha256};

fn bytes32(hex: &str) -> [u8; 32] {
    let mut out = [0u8; 32];
    for i in 0..32 {
        out[i] = u8::from_str_radix(&hex[2 * i..2 * i + 2], 16).unwrap();
    }
    out
}

#[test]
fn replay_guard_accepts_new_nonces_and_rejects_replays() {
    let mut guard = ReplayGuard::new(8);
    let packet = [7u8; 32];

    assert!(guard.is_fresh_packet(&packet));
    assert!(!guard.is_fresh_packet(&packet));
}

#[test]
fn replay_guard_eviction_allows_old_nonce_after_window() {
    let mut guard = ReplayGuard::new(2);
    let first = [1u8; 32];
    let second = [2u8; 32];
    let third = [3u8; 32];

    assert!(guard.is_fresh_packet(&first));
    assert!(guard.is_fresh_packet(&second));
    assert!(guard.is_fresh_packet(&third));
    assert!(guard.is_fresh_packet(&first));
}

#[test]
fn replay_guard_refuses_short_packets() {
    let mut guard = ReplayGuard::new(4);
    assert!(!guard.is_fresh_packet(&[1u8; 11]));
    assert!(guard.is_fresh_packet(&[1u8; 12]));
}

#[test]
fn replay_guard_looks_at_the_first_twelve_bytes_only() {
    let mut guard = ReplayGuard::new(4);
    let mut a = [9u8; 20];
    let mut b = [9u8; 20];
    a[12] = 1;
    b[12] = 2;
    assert!(guard.is_fresh_packet(&a));
    assert!(!guard.is_fresh_packet(&b));
    b[11] = 8;
    assert!(guard.is_fresh_packet(&b));
}

#[test]
fn replay_guard_has_room_for_at_least_one_nonce() {
    let mut guard = ReplayGuard::new(0);
    assert!(guard.is_fresh_packet(&[1u8; 12]));
    assert!(!guard.is_fresh_packet(&[1u8; 12]));
    assert!(guard.is_fresh_packet(&[2u8; 12]));
    assert!(guard.is_fresh_packet(&[1u8; 12]));
}

#[test]
fn replay_guard_default_window_is_4096() {
    let mut guard = ReplayGuard::default();
    let packet = |n: usize| {
        let mut p = [0u8; 12];
        p[0] = (n / 256) as u8;
        p[1] = (n % 256) as u8;
        p
    };
    assert_eq!(DEFAULT_REPLAY_WINDOW, 4096);
    for n in 0..4096 {
        assert!(guard.is_fresh_packet(&packet(n)));
    }
    assert!(!guard.is_fresh_packet(&packet(0)));
    assert!(guard.is_fresh_packet(&packet(4096)));
    assert!(guard.is_fresh_packet(&packet(0)));
    assert!(!guard.is_fresh_packet(&packet(2)));
}

#[test]
fn replay_guard_clone_has_a_window_of_its_own() {
    let mut guard = ReplayGuard::new(4);
    assert!(guard.is_fresh_packet(&[1u8; 12]));
    let mut copy = guard.clone();
    assert!(!copy.is_fresh_packet(&[1u8; 12]));
    assert!(copy.is_fresh_packet(&[2u8; 12]));
    assert!(guard.is_fresh_packet(&[2u8; 12]));
}

#[test]
fn session_key_is_hkdf_of_the_digest() {
    let x = [1u8; 32];
    let pq = [2u8; 32];
    let mut hasher = Sha256::new();
    hasher.update(x);
    hasher.update(pq);
    let mut expected = [0u8; 32];
    Hkdf::<Sha256>::new(None, &hasher.finalize())
        .expand(b"ntz-proto-hybrid-v1", &mut expected)
        .unwrap();
    assert_eq!(HybridHandshake::derive_session_key(&x, &pq), expected);
    assert_ne!(HybridHandshake::derive_session_key(&pq, &x), expected);
}

#[test]
fn x25519_public_key_of_a_secret() {
    let alice = bytes32("77076d0a7318a57d3c16c17251b26645df4c2f92ebc099ac6dbe1f3a7fa8ee4e");
    let (secret, public) = HybridHandshake::x25519_keys_from(alice);
    assert_eq!(secret, alice);
    let expected = x25519_dalek::PublicKey::from(&x25519_dalek::StaticSecret::from(alice));
    assert_eq!(&public, expected.as_bytes());
    assert_ne!(public, alice);
}

#[test]
fn generated_x25519_keys_belong_together() {
    let (secret, public) = HybridHandshake::generate_x25519_keys();
    let expected = x25519_dalek::PublicKey::from(&x25519_dalek::StaticSecret::from(secret));
    assert_eq!(&public, expected.as_bytes());
}

#[test]
fn packets_are_nonce_and_ciphertext() {
    let key = [5u8; 32];
    let nonce = [6u8; 12];
    let packet = HybridHandshake::encrypt_with_nonce(&key, &nonce, b"hello");
    let cipher = ChaCha20Poly1305::new(Key::from_slice(&key));
    let mut expected = nonce.to_vec();
    expected.extend(cipher.encrypt(Nonce::from_slice(&nonce), b"hello".as_slice()).unwrap());
    assert_eq!(packet, expected);
    assert_eq!(packet.len(), 5 + 28);
}

#[test]
fn encryption_round_trips() {
    let key = [7u8; 32];
    let packet = HybridHandshake::encrypt_data(&key, b"some packet");
    assert_eq!(packet.len(), 11 + 28);
    assert_eq!(HybridHandshake::decrypt_data(&key, &packet), Some(b"some packet".to_vec()));
}

#[test]
fn empty_plaintext_round_trips() {
    let key = [7u8; 32];
    let packet = HybridHandshake::encrypt_data(&key, b"");
    assert_eq!(packet.len(), 28);
    assert_eq!(HybridHandshake::decrypt_data(&key, &packet), Some(Vec::new()));
}

#[test]
fn every_packet_has_a_nonce_of_its_own() {
    let key = [7u8; 32];
    let a = HybridHandshake::encrypt_data(&key, b"x");
    let b = HybridHandshake::encrypt_data(&key, b"x");
    assert_ne!(a[..12], b[..12]);
}

#[test]
fn forged_packets_do_not_decrypt() {
    let key = [7u8; 32];
    let mut packet = HybridHandshake::encrypt_data(&key, b"some packet");
    assert_eq!(HybridHandshake::decrypt_data(&[8u8; 32], &packet), None);
    let last = packet.len() - 1;
    packet[last] ^= 1;
    assert_eq!(HybridHandshake::decrypt_data(&key, &packet), None);
    assert_eq!(HybridHandshake::decrypt_data(&key, &packet[..11]), None);
    assert_eq!(HybridHandshake::decrypt_data(&key, &packet[..20]), None);
    let whole = HybridHandshake::encrypt_with_nonce(&key, &[5u8; 12], b"x");
    assert_eq!(whole.len(), 29);
    for i in 0..whole.len() {
        let mut altered = whole.clone();
        altered[i] ^= 1;
        assert_eq!(HybridHandshake::decrypt_data(&key, &altered), None);
    }
    assert_eq!(HybridHandshake::decrypt_data(&key, &whole), Some(b"x".to_vec()));
}

#[test]
fn decapsulation_needs_a_ciphertext_of_the_right_length() {
    let (dk, ek) = HybridHandshake::generate_pq_keys();
    assert_eq!(ek.len(), 1184);
    assert_eq!(
        HybridHandshake::decapsulate_pq_key(&dk, &[0u8; 1087]),
        Err("Invalid ciphertext length")
    );
    assert_eq!(
        HybridHandshake::decapsulate_pq_key(&dk, &[0u8; 1089]),
        Err("Invalid ciphertext length")
    );
    assert_eq!(HybridHandshake::decapsulate_pq_key(&dk, &[0u8; 1088]).unwrap().len(), 32);
}

#[test]
fn kem_keys_are_a_function_of_their_seeds() {
    let (_, a) = HybridHandshake::pq_keys_from(&[1u8; 32], &[2u8; 32]);
    let (_, b) = HybridHandshake::pq_keys_from(&[1u8; 32], &[2u8; 32]);
    let (_, c) = HybridHandshake::pq_keys_from(&[3u8; 32], &[2u8; 32]);
    assert_eq!(a, b);
    assert_ne!(a, c);
}

#[test]
fn hex_and_digests() {
    assert_eq!(encode_hex(&[0x00, 0x0f, 0xa5, 0xff]), "000fa5ff");
    assert_eq!(encode_hex(&[]), "");
    assert_eq!(
        sha256_hex("abc"),
        "ba7816bf8f01cfea414140de5dae2223b00361a396177a9cb410ff61f20015ad"
    );
    assert_eq!(
        sha256_hex(""),
        "e3b0c44298fc1c149afbf4c8996fb92427ae41e4649b934ca495991b7852b855"
    );
}

#[test]
fn random_texts_have_their_shape() {
    let token = random_token();
    assert_eq!(token.len(), 48);
    assert!(token.chars().all(|c| c.is_ascii_digit() || ('a'..='f').contains(&c)));
    assert_ne!(token, random_token());
    let id = new_agent_id();
    assert_eq!(id.len(), 36);
    for at in [8, 13, 18, 23] {
        assert_eq!(&id[at..at + 1], "-");
    }
    assert_ne!(id, new_agent_id());
}
