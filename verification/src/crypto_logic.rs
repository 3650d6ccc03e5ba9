//! The hybrid handshake and the replay window of the data plane.

use std::collections::{HashSet, VecDeque};
use vstd::prelude::*;
use vstd::utf8::encode_utf8;

use crate::bytes::{append_bytes, array_at, copy_range};
use crate::primitives::{
    chacha_open, chacha_seal, hkdf_expand, hkdf_of, kem_decapsulate, kem_decapsulated,
    kem_generate, kem_keypair, opened, os_random_bytes, sealed, sha256, sha256_of,
    x25519_public, x25519_public_key, x25519_shared, MAX_PLAINTEXT,
};

verus! {

broadcast use vstd::std_specs::hash::group_hash_axioms;

/// How many nonces the default replay window remembers.
pub const DEFAULT_REPLAY_WINDOW: usize = 4096;

/// The number that a sequence of bytes writes in base 256, most significant byte first.
pub open spec fn be_value(bytes: Seq<u8>) -> nat
    decreases bytes.len(),
{
    if bytes.len() == 0 {
        0
    } else {
        be_value(bytes.drop_last()) * 256 + bytes.last() as nat
    }
}

/// `256` to the power of `n`.
pub open spec fn pow256(n: nat) -> nat
    decreases n,
{
    if n == 0 {
        1
    } else {
        pow256((n - 1) as nat) * 256
    }
}

/// The nonce of a packet, its first 12 bytes, as a number.
pub open spec fn nonce_of(data: Seq<u8>) -> nat {
    be_value(data.take(12))
}

/// What the numbers of byte sequences are bounded by.
proof fn lemma_be_value_bound(bytes: Seq<u8>)
    ensures
        be_value(bytes) < pow256(bytes.len()),
    decreases bytes.len(),
{
    if bytes.len() > 0 {
        lemma_be_value_bound(bytes.drop_last());
    }
}

/// Byte sequences of one length and one number are the same.
proof fn lemma_be_value_injective(a: Seq<u8>, b: Seq<u8>)
    requires
        a.len() == b.len(),
        be_value(a) == be_value(b),
    ensures
        a == b,
    decreases a.len(),
{
    if a.len() > 0 {
        lemma_be_value_injective(a.drop_last(), b.drop_last());
        assert(a =~= a.drop_last().push(a.last()));
        assert(b =~= b.drop_last().push(b.last()));
    } else {
        assert(a =~= b);
    }
}

/// Two packets have the same nonce exactly where their first 12 bytes are the same.
pub proof fn law_nonce_identifies_prefix(a: Seq<u8>, b: Seq<u8>)
    requires
        a.len() >= 12,
        b.len() >= 12,
    ensures
        nonce_of(a) == nonce_of(b) <==> a.take(12) == b.take(12),
        nonce_of(a) <= u128::MAX,
{
    lemma_be_value_bound(a.take(12));
    assert(pow256(12) <= u128::MAX) by {
        reveal_with_fuel(pow256, 13);
    }
    if nonce_of(a) == nonce_of(b) {
        lemma_be_value_injective(a.take(12), b.take(12));
    }
}

/// The nonce of a packet.
fn packet_nonce(data: &[u8]) -> (nonce: u128)
    requires
        data@.len() >= 12,
    ensures
        nonce == nonce_of(data@),
{
    let mut nonce: u128 = 0;
    assert(data@.take(0) =~= Seq::<u8>::empty());
    for i in 0..12usize
        invariant
            data@.len() >= 12,
            nonce == be_value(data@.take(i as int)),
    {
        proof {
            let done = data@.take(i + 1);
            assert(done.drop_last() =~= data@.take(i as int));
            lemma_be_value_bound(done);
            assert(pow256(done.len()) <= u128::MAX) by {
                reveal_with_fuel(pow256, 13);
            }
        }
        nonce = nonce * 256 + data[i] as u128;
    }
    nonce
}

/// What a sequence contains after a push.
proof fn lemma_push_contains(s: Seq<u128>, added: u128, x: u128)
    ensures
        s.push(added).contains(x) == (s.contains(x) || x == added),
{
    if s.contains(x) {
        let i = choose|i: int| 0 <= i < s.len() && s[i] == x;
        assert(s.push(added)[i] == x);
    }
    if x == added {
        assert(s.push(added)[s.len() as int] == x);
    }
}

/// What a sequence without duplicates contains after its first element has left.
proof fn lemma_pop_contains(s: Seq<u128>, x: u128)
    requires
        s.len() > 0,
        s.no_duplicates(),
    ensures
        s.drop_first().contains(x) == (s.contains(x) && x != s[0]),
{
    let rest = s.drop_first();
    if rest.contains(x) {
        let i = choose|i: int| 0 <= i < rest.len() && rest[i] == x;
        assert(s[i + 1] == x);
    }
    if s.contains(x) && x != s[0] {
        let i = choose|i: int| 0 <= i < s.len() && s[i] == x;
        assert(rest[i - 1] == x);
    }
}

/// The sliding window of nonces that a receiver refuses to see again.
#[derive(Debug)]
pub struct ReplayGuard {
    seen: HashSet<u128>,
    order: VecDeque<u128>,
    max_entries: usize,
}

/// Whether a packet with these bytes is accepted where `window` holds the remembered nonces.
pub open spec fn is_fresh(window: Seq<u128>, data: Seq<u8>) -> bool {
    data.len() >= 12 && !window.contains(nonce_of(data) as u128)
}

/// The remembered nonces after a packet was offered: an accepted nonce is appended, and only the
/// last `capacity` nonces are kept.
pub open spec fn window_after(window: Seq<u128>, capacity: nat, data: Seq<u8>) -> Seq<u128> {
    if is_fresh(window, data) {
        let grown = window.push(nonce_of(data) as u128);
        if grown.len() > capacity {
            grown.skip(grown.len() - capacity)
        } else {
            grown
        }
    } else {
        window
    }
}

impl ReplayGuard {
    /// The remembered nonces, oldest first.
    pub closed spec fn window(&self) -> Seq<u128> {
        self.order@
    }

    /// How many nonces are remembered at most.
    pub closed spec fn capacity(&self) -> nat {
        self.max_entries as nat
    }

    /// The window holds no nonce twice and at most `capacity` nonces, and the set for quick
    /// lookup has the same members.
    pub closed spec fn wf(&self) -> bool {
        &&& self.max_entries >= 1
        &&& self.order@.len() <= self.max_entries
        &&& self.order@.no_duplicates()
        &&& self.seen@ == self.order@.to_set()
    }

    /// An empty window of at least one entry.
    pub fn new(max_entries: usize) -> (guard: Self)
        ensures
            guard.wf(),
            guard.window() == Seq::<u128>::empty(),
            guard.capacity() == if max_entries >= 1 {
                max_entries as nat
            } else {
                1
            },
    {
        let guard = ReplayGuard {
            seen: HashSet::new(),
            order: VecDeque::new(),
            max_entries: if max_entries >= 1 {
                max_entries
            } else {
                1
            },
        };
        assert(guard.seen@ =~= guard.order@.to_set());
        guard
    }

    /// Accepts a packet whose nonce is not in the window, and remembers the nonce; refuses every
    /// other packet, and every packet too short to hold a nonce.
    pub fn is_fresh_packet(&mut self, data: &[u8]) -> (fresh: bool)
        requires
            old(self).wf(),
        ensures
            final(self).wf(),
            final(self).capacity() == old(self).capacity(),
            fresh == is_fresh(old(self).window(), data@),
            final(self).window() == window_after(old(self).window(), old(self).capacity(), data@),
    {
        if data.len() < 12 {
            return false;
        }
        let nonce: u128 = packet_nonce(data);
        let ghost before = self.order@;
        assert(self.seen@.contains(nonce) == before.contains(nonce));
        if self.seen.contains(&nonce) {
            return false;
        }
        self.seen.insert(nonce);
        self.order.push_back(nonce);
        let ghost grown = before.push(nonce);
        proof {
            assert(self.seen@ =~= grown.to_set()) by {
                assert forall|x: u128| grown.contains(x) == (before.contains(x) || x == nonce) by {
                    lemma_push_contains(before, nonce, x);
                }
            }
        }
        while self.order.len() > self.max_entries
            invariant
                self.max_entries == old(self).max_entries,
                self.max_entries >= 1,
                grown.no_duplicates(),
                grown.len() <= self.max_entries + 1,
                self.order@.len() <= grown.len(),
                self.order@ == grown.skip(grown.len() - self.order@.len()),
                self.order@.len() >= self.max_entries || self.order@.len() == grown.len(),
                self.seen@ == self.order@.to_set(),
            decreases self.order@.len(),
        {
            let ghost current = self.order@;
            if let Some(expired) = self.order.pop_front() {
                self.seen.remove(&expired);
                proof {
                    assert(current =~= seq![expired] + self.order@);
                    assert(self.order@ =~= grown.skip(grown.len() - self.order@.len()));
                    assert(self.seen@ =~= self.order@.to_set()) by {
                        assert forall|x: u128|
                            self.order@.to_set().contains(x) == (current.contains(x) && x != expired) by {
                            lemma_pop_contains(current, x);
                        }
                    }
                }
            }
        }
        assert(grown.skip(0) =~= grown);
        true
    }
}

/// A window never holds more nonces than its capacity, and none twice.
pub proof fn law_window_is_bounded(guard: ReplayGuard)
    requires
        guard.wf(),
    ensures
        1 <= guard.capacity(),
        guard.window().len() <= guard.capacity(),
        guard.window().no_duplicates(),
{
}

impl Default for ReplayGuard {
    /// An empty window of the default size.
    fn default() -> (guard: Self)
        ensures
            guard.wf(),
            guard.window() == Seq::<u128>::empty(),
            guard.capacity() == DEFAULT_REPLAY_WINDOW,
    {
        ReplayGuard::new(DEFAULT_REPLAY_WINDOW)
    }
}

impl Clone for ReplayGuard {
    /// A guard with the same window.
    fn clone(&self) -> (copy: Self)
        ensures
            self.wf() ==> copy.wf(),
            copy.window() == self.window(),
            copy.capacity() == self.capacity(),
    {
        let mut seen: HashSet<u128> = HashSet::new();
        let mut order: VecDeque<u128> = VecDeque::new();
        let n: usize = self.order.len();
        assert(seen@ =~= self.order@.take(0).to_set());
        for i in 0..n
            invariant
                n == self.order@.len(),
                order@ == self.order@.take(i as int),
                seen@ == self.order@.take(i as int).to_set(),
        {
            let nonce: u128 = self.order[i];
            let ghost done = self.order@.take(i as int);
            order.push_back(nonce);
            seen.insert(nonce);
            assert(self.order@.take(i + 1) =~= done.push(nonce));
            assert(seen@ =~= done.push(nonce).to_set()) by {
                assert forall|x: u128|
                    done.push(nonce).contains(x) == (done.contains(x) || x == nonce) by {
                    lemma_push_contains(done, nonce, x);
                }
            }
        }
        assert(self.order@.take(n as int) =~= self.order@);
        ReplayGuard { seen, order, max_entries: self.max_entries }
    }
}

/// The window after a series of packets.
pub open spec fn window_after_all(window: Seq<u128>, capacity: nat, packets: Seq<Seq<u8>>) -> Seq<
    u128,
>
    decreases packets.len(),
{
    if packets.len() == 0 {
        window
    } else {
        window_after(
            window_after_all(window, capacity, packets.drop_last()),
            capacity,
            packets.last(),
        )
    }
}

/// Whether each packet of a series is accepted in its turn.
pub open spec fn all_fresh(window: Seq<u128>, capacity: nat, packets: Seq<Seq<u8>>) -> bool
    decreases packets.len(),
{
    packets.len() == 0 || {
        &&& all_fresh(window, capacity, packets.drop_last())
        &&& is_fresh(window_after_all(window, capacity, packets.drop_last()), packets.last())
    }
}

/// The nonces of a series of packets.
pub open spec fn nonces_of(packets: Seq<Seq<u8>>) -> Seq<u128> {
    Seq::new(packets.len(), |i: int| nonce_of(packets[i]) as u128)
}

/// The last `n` elements of a sequence, or all of a shorter one.
pub open spec fn last_of(s: Seq<u128>, n: nat) -> Seq<u128> {
    if s.len() > n {
        s.skip(s.len() - n)
    } else {
        s
    }
}

/// A packet that was accepted is refused when it comes again before as many other packets as the
/// window holds.
pub proof fn law_replay_is_refused(
    window: Seq<u128>,
    capacity: nat,
    packet: Seq<u8>,
    later: Seq<Seq<u8>>,
)
    requires
        window.len() <= capacity,
        is_fresh(window, packet),
        later.len() < capacity,
    ensures
        !is_fresh(
            window_after_all(window_after(window, capacity, packet), capacity, later),
            packet,
        ),
{
    let first = window_after(window, capacity, packet);
    assert(first.last() == nonce_of(packet) as u128);
    lemma_nonce_stays(first, capacity, nonce_of(packet) as u128, later);
}

/// The last nonce of a window is still in it, among the last `later.len() + 1`, after the packets
/// `later`.
proof fn lemma_nonce_stays(
    window: Seq<u128>,
    capacity: nat,
    nonce: u128,
    later: Seq<Seq<u8>>,
)
    requires
        0 < window.len() <= capacity,
        window.last() == nonce,
        later.len() < capacity,
    ensures
        ({
            let after = window_after_all(window, capacity, later);
            &&& 0 < after.len() <= capacity
            &&& after.contains(nonce)
            &&& exists|i: int|
                0 <= i < after.len() && i + later.len() + 1 >= after.len() && #[trigger] after[i]
                    == nonce
        }),
    decreases later.len(),
{
    if later.len() == 0 {
        assert(window[window.len() - 1] == nonce);
    } else {
        lemma_nonce_stays(window, capacity, nonce, later.drop_last());
        let before = window_after_all(window, capacity, later.drop_last());
        let after = window_after_all(window, capacity, later);
        let i = choose|i: int|
            0 <= i < before.len() && i + later.len() >= before.len() && #[trigger] before[i]
                == nonce;
        if is_fresh(before, later.last()) {
            let grown = before.push(nonce_of(later.last()) as u128);
            let dropped = grown.len() - after.len();
            assert(after[i - dropped] == nonce);
        } else {
            assert(after[i] == nonce);
        }
    }
}

/// The window holds the most recent accepted nonces, as many as fit and no others.
pub proof fn law_window_holds_recent_nonces(
    window: Seq<u128>,
    capacity: nat,
    packets: Seq<Seq<u8>>,
)
    requires
        window.len() <= capacity,
        all_fresh(window, capacity, packets),
    ensures
        window_after_all(window, capacity, packets) == last_of(
            window + nonces_of(packets),
            capacity,
        ),
    decreases packets.len(),
{
    if packets.len() == 0 {
        assert(window + nonces_of(packets) =~= window);
    } else {
        let fewer = packets.drop_last();
        law_window_holds_recent_nonces(window, capacity, fewer);
        assert(nonces_of(packets) =~= nonces_of(fewer).push(nonce_of(packets.last()) as u128));
        assert(window_after_all(window, capacity, packets) =~= last_of(
            window + nonces_of(packets),
            capacity,
        ));
    }
}

/// A packet is accepted again once as many other packets as the window holds were accepted after
/// it.
pub proof fn law_evicted_nonce_is_accepted(
    window: Seq<u128>,
    capacity: nat,
    packet: Seq<u8>,
    later: Seq<Seq<u8>>,
)
    requires
        window.len() <= capacity,
        packet.len() >= 12,
        all_fresh(window, capacity, later),
        later.len() >= capacity,
        forall|i: int| 0 <= i < later.len() ==> nonce_of(packet) as u128 != nonce_of(
            #[trigger] later[i],
        ) as u128,
    ensures
        is_fresh(window_after_all(window, capacity, later), packet),
{
    law_window_holds_recent_nonces(window, capacity, later);
    let after = window_after_all(window, capacity, later);
    let all = window + nonces_of(later);
    assert forall|i: int| 0 <= i < after.len() implies after[i] != nonce_of(packet) as u128 by {
        let k = i + all.len() - after.len() - window.len();
        assert(after[i] == nonces_of(later)[k]);
        assert(nonce_of(packet) as u128 != nonce_of(later[k]) as u128);
    }
}

/// The decapsulation key of the post-quantum key exchange, in its encoded form.
pub struct DecapsulationKey {
    pub bytes: [u8; 2400],
}

/// The operations of the hybrid key exchange and of the data plane cipher.
pub struct HybridHandshake;

/// Whether `public` is the X25519 public key of `secret`: it is the one that the secret gives,
/// and the Diffie-Hellman function commutes on it.
pub open spec fn x25519_pair(secret: Seq<u8>, public: Seq<u8>) -> bool {
    &&& secret.len() == 32
    &&& public == x25519_public(secret)
    &&& forall|other: Seq<u8>|
        other.len() == 32 ==> #[trigger] x25519_shared(other, public) == x25519_shared(
            secret,
            x25519_public(other),
        )
}

/// Whether two keys are an ML-KEM-768 key pair made from some seeds.
pub open spec fn kem_pair(decapsulation: Seq<u8>, encapsulation: Seq<u8>) -> bool {
    exists|d: Seq<u8>, z: Seq<u8>|
        d.len() == 32 && z.len() == 32 && (decapsulation, encapsulation) == #[trigger] kem_keypair(
            d,
            z,
        )
}

/// The session key of the two shared secrets.
pub open spec fn session_key_of(x_shared: Seq<u8>, pq_shared: Seq<u8>) -> Seq<u8> {
    hkdf_of(sha256_of(x_shared + pq_shared), encode_utf8("ntz-proto-hybrid-v1"@))
}

/// The plaintext of a packet: its first 12 bytes are the nonce, the others the ciphertext. A packet
/// that is longer than what one nonce can encrypt has none.
pub open spec fn decrypted(key: Seq<u8>, data: Seq<u8>) -> Option<Seq<u8>> {
    if data.len() < 12 || data.len() > MAX_PLAINTEXT + 28 {
        None
    } else {
        opened(key, data.take(12), data.skip(12))
    }
}

/// Whether a packet is a plaintext encrypted under some nonce, which leads the packet: it has the
/// bytes of that encryption, and decrypts to the plaintext.
pub open spec fn is_sealed_packet(key: Seq<u8>, plaintext: Seq<u8>, packet: Seq<u8>) -> bool {
    &&& packet.len() == plaintext.len() + 28
    &&& packet == packet.take(12) + sealed(key, packet.take(12), plaintext)
    &&& decrypted(key, packet) == Some(plaintext)
}

/// 32 bytes of fresh randomness. Nothing is known of their values.
pub(crate) fn random_32() -> (bytes: [u8; 32])
    ensures
        bytes@.len() == 32,
{
    let random = os_random_bytes(32);
    array_at::<32>(random.as_slice(), 0)
}

impl HybridHandshake {
    /// A fresh X25519 key pair: secret key, then public key.
    pub fn generate_x25519_keys() -> (keys: ([u8; 32], [u8; 32]))
        ensures
            x25519_pair(keys.0@, keys.1@),
    {
        let secret = random_32();
        HybridHandshake::x25519_keys_from(secret)
    }

    /// The X25519 key pair of a secret key.
    pub fn x25519_keys_from(secret: [u8; 32]) -> (keys: ([u8; 32], [u8; 32]))
        ensures
            keys.0@ == secret@,
            x25519_pair(keys.0@, keys.1@),
    {
        let public = x25519_public_key(&secret);
        (secret, public)
    }

    /// A fresh ML-KEM-768 key pair: decapsulation key, then the encoded encapsulation key.
    pub fn generate_pq_keys() -> (keys: (DecapsulationKey, Vec<u8>))
        ensures
            kem_pair(keys.0.bytes@, keys.1@),
            keys.1@.len() == 1184,
    {
        let d = random_32();
        let z = random_32();
        HybridHandshake::pq_keys_from(&d, &z)
    }

    /// The ML-KEM-768 key pair of two seeds.
    pub fn pq_keys_from(d: &[u8; 32], z: &[u8; 32]) -> (keys: (DecapsulationKey, Vec<u8>))
        ensures
            (keys.0.bytes@, keys.1@) == kem_keypair(d@, z@),
            keys.1@.len() == 1184,
            kem_pair(keys.0.bytes@, keys.1@),
    {
        let (dk, ek) = kem_generate(d, z);
        let public = copy_range(&ek, 0, 1184);
        assert(public@ =~= ek@);
        assert((dk@, public@) == kem_keypair(d@, z@));
        (DecapsulationKey { bytes: dk }, public)
    }

    /// The shared secret that a ciphertext of 1088 bytes carries; a ciphertext of another length
    /// is refused.
    pub fn decapsulate_pq_key(dk: &DecapsulationKey, ciphertext: &[u8]) -> (r: Result<
        Vec<u8>,
        &'static str,
    >)
        ensures
            match r {
                Ok(shared) => ciphertext@.len() == 1088 && shared@ == kem_decapsulated(
                    dk.bytes@,
                    ciphertext@,
                ) && shared@.len() == 32,
                Err(message) => ciphertext@.len() != 1088 && message@
                    == "Invalid ciphertext length"@,
            },
    {
        if ciphertext.len() != 1088 {
            return Err("Invalid ciphertext length");
        }
        let ct = array_at::<1088>(ciphertext, 0);
        assert(ct@ =~= ciphertext@);
        match kem_decapsulate(&dk.bytes, &ct) {
            Ok(shared) => {
                let bytes = copy_range(&shared, 0, 32);
                assert(bytes@ =~= shared@);
                Ok(bytes)
            },
            Err(_) => Err("Decapsulation failed"),
        }
    }

    /// The session key of the two shared secrets: HKDF of the digest of both.
    pub fn derive_session_key(x_shared: &[u8], pq_shared: &[u8]) -> (key: [u8; 32])
        ensures
            key@ == session_key_of(x_shared@, pq_shared@),
    {
        let mut input: Vec<u8> = Vec::new();
        append_bytes(&mut input, x_shared);
        append_bytes(&mut input, pq_shared);
        assert(input@ =~= x_shared@ + pq_shared@);
        let combined = sha256(input.as_slice());
        hkdf_expand(&combined, "ntz-proto-hybrid-v1".as_bytes())
    }

    /// Encrypts under a nonce: the nonce, then the ciphertext.
    pub fn encrypt_with_nonce(key: &[u8; 32], nonce: &[u8; 12], plaintext: &[u8]) -> (packet: Vec<
        u8,
    >)
        requires
            plaintext@.len() <= MAX_PLAINTEXT,
        ensures
            packet@ == nonce@ + sealed(key@, nonce@, plaintext@),
            packet@.len() == plaintext@.len() + 28,
            decrypted(key@, packet@) == Some(plaintext@),
    {
        let ciphertext = chacha_seal(key, nonce, plaintext);
        let mut packet: Vec<u8> = Vec::new();
        append_bytes(&mut packet, nonce);
        append_bytes(&mut packet, ciphertext.as_slice());
        assert(packet@ =~= nonce@ + ciphertext@);
        assert(packet@.take(12) =~= nonce@);
        assert(packet@.skip(12) =~= ciphertext@);
        packet
    }

    /// Encrypts under a fresh random nonce, which leads the packet. The packet decrypts to the
    /// plaintext.
    pub fn encrypt_data(key: &[u8; 32], plaintext: &[u8]) -> (packet: Vec<u8>)
        requires
            plaintext@.len() <= MAX_PLAINTEXT,
        ensures
            is_sealed_packet(key@, plaintext@, packet@),
    {
        let random = os_random_bytes(12);
        let nonce = array_at::<12>(random.as_slice(), 0);
        let packet = HybridHandshake::encrypt_with_nonce(key, &nonce, plaintext);
        assert(packet@.take(12) =~= nonce@);
        packet
    }

    /// Decrypts a packet of nonce and ciphertext; a packet that is too short, too long, or does
    /// not authenticate gives nothing. A packet decrypts exactly where it was sealed: it has the
    /// bytes of the encryption of the plaintext under its nonce.
    pub fn decrypt_data(key: &[u8; 32], data: &[u8]) -> (plaintext: Option<Vec<u8>>)
        ensures
            match plaintext {
                Some(bytes) => decrypted(key@, data@) == Some(bytes@) && is_sealed_packet(
                    key@,
                    bytes@,
                    data@,
                ),
                None => decrypted(key@, data@) is None,
            },
            forall|bytes: Seq<u8>|
                bytes.len() <= MAX_PLAINTEXT && data@.len() == bytes.len() + 28 ==> (data@.skip(12)
                    == #[trigger] sealed(key@, data@.take(12), bytes) <==> plaintext is Some
                    && plaintext->Some_0@ == bytes),
    {
        if data.len() < 12 || data.len() as u64 > MAX_PLAINTEXT + 28 {
            return None;
        }
        let nonce = array_at::<12>(data, 0);
        assert(nonce@ =~= data@.take(12));
        let ciphertext = copy_range(data, 12, data.len());
        assert(ciphertext@ =~= data@.skip(12));
        assert(data@ =~= data@.take(12) + data@.skip(12));
        chacha_open(key, &nonce, ciphertext.as_slice())
    }
}

/// Both ends of a handshake derive the same session key: the server from its secret keys and what
/// the client sent, the client from its secret key and what the server sent. The post-quantum
/// half rests on the client's ciphertext decapsulating to the client's secret.
pub proof fn law_session_keys_agree(
    server_secret: Seq<u8>,
    server_public: Seq<u8>,
    client_secret: Seq<u8>,
    client_public: Seq<u8>,
    decapsulation_key: Seq<u8>,
    ciphertext: Seq<u8>,
    pq_shared: Seq<u8>,
)
    requires
        x25519_pair(server_secret, server_public),
        x25519_pair(client_secret, client_public),
        kem_decapsulated(decapsulation_key, ciphertext) == pq_shared,
    ensures
        session_key_of(
            x25519_shared(server_secret, client_public),
            kem_decapsulated(decapsulation_key, ciphertext),
        ) == session_key_of(x25519_shared(client_secret, server_public), pq_shared),
{
}

/// What the window remembers: an accepted nonce is added at its end, and where it was full the
/// oldest one leaves; a refused packet changes nothing. A window has room for 4096 nonces unless
/// another size is asked for.
pub proof fn law_window_slides(window: Seq<u128>, capacity: nat, data: Seq<u8>)
    requires
        window.len() <= capacity,
        capacity > 0,
    ensures
        ({
            let after = window_after(window, capacity, data);
            let nonce = nonce_of(data) as u128;
            let known = exists|i: int| 0 <= i < window.len() && #[trigger] window[i] == nonce;
            &&& data.len() < 12 || known ==> after == window && !is_fresh(window, data)
            &&& data.len() >= 12 && !known ==> is_fresh(window, data)
            &&& data.len() >= 12 && !known && window.len() < capacity ==> after == window.push(nonce)
            &&& data.len() >= 12 && !known && window.len() == capacity ==> after == window.skip(
                1,
            ).push(nonce)
        }),
        DEFAULT_REPLAY_WINDOW == 4096,
{
    let nonce = nonce_of(data) as u128;
    assert(window.contains(nonce) == exists|i: int|
        0 <= i < window.len() && #[trigger] window[i] == nonce);
    if is_fresh(window, data) && window.len() == capacity {
        assert(window_after(window, capacity, data) =~= window.skip(1).push(nonce));
    }
}

/// The nonce of a packet is the number that its first twelve bytes write, most significant first.
pub proof fn law_nonce_value(bytes: Seq<u8>, last: u8, rest: Seq<u8>)
    requires
        bytes.len() == 11,
    ensures
        be_value(Seq::empty()) == 0,
        nonce_of(bytes.push(last) + rest) == be_value(bytes) * 256 + last,
{
    assert((bytes.push(last) + rest).take(12) =~= bytes.push(last));
    assert(bytes.push(last).drop_last() =~= bytes);
}

} // verus!
