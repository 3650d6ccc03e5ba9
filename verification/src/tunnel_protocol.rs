//! The handshake messages of the tunnel.
//!
//! A client hello is the client's identity; a server hello is the server's two public keys; a
//! client authentication is the identity, the client's public key, the post-quantum ciphertext and
//! a tag that binds both to the tunnel token.

use vstd::prelude::*;
use vstd::utf8::*;

use crate::bytes::{append_bytes, array_at, bytes_eq, copy_range};
use crate::primitives::{sha256, sha256_of};

verus! {

/// `core::str::Utf8Error`: says where a byte sequence stops being UTF-8. Nothing is read from it.
#[verifier::external_type_specification]
#[verifier::external_body]
pub struct ExUtf8Error(core::str::Utf8Error);

/// `core::str::from_utf8` succeeds exactly on valid UTF-8, and gives the text with these bytes.
pub assume_specification[ core::str::from_utf8 ](v: &[u8]) -> (r: Result<
    &str,
    core::str::Utf8Error,
>)
    ensures
        r is Ok <==> valid_utf8(v@),
        r matches Ok(text) ==> encode_utf8(text@) == v@,
;

/// What a client hello starts with: `NTZHELLO`.
pub open spec fn client_hello_magic() -> Seq<u8> {
    seq![78u8, 84, 90, 72, 69, 76, 76, 79]
}

/// What a server hello starts with: `NTZSHLO1`.
pub open spec fn server_hello_magic() -> Seq<u8> {
    seq![78u8, 84, 90, 83, 72, 76, 79, 49]
}

/// What a client authentication starts with: `NTZAUTH1`.
pub open spec fn client_auth_magic() -> Seq<u8> {
    seq![78u8, 84, 90, 65, 85, 84, 72, 49]
}

/// The two bytes, most significant first, of a length taken modulo 65536.
pub open spec fn length_bytes(n: nat) -> Seq<u8> {
    seq![((n / 256) % 256) as u8, (n % 256) as u8]
}

/// The number that two bytes at `at` write, most significant first.
pub open spec fn length_at(data: Seq<u8>, at: int) -> int {
    data[at] * 256 + data[at + 1]
}

/// The bytes of a client hello.
pub open spec fn client_hello(client_id: Seq<char>) -> Seq<u8> {
    client_hello_magic() + length_bytes(encode_utf8(client_id).len()) + encode_utf8(client_id)
}

/// The identity in a client hello: behind the magic and the length stand at least that many
/// bytes, and those are UTF-8. What follows them is ignored.
pub open spec fn client_hello_id(data: Seq<u8>) -> Option<Seq<char>> {
    if data.len() < 10 || data.take(8) != client_hello_magic() || data.len() < 10 + length_at(
        data,
        8,
    ) || !valid_utf8(data.subrange(10, 10 + length_at(data, 8))) {
        None
    } else {
        Some(decode_utf8(data.subrange(10, 10 + length_at(data, 8))))
    }
}

/// The bytes of a server hello.
pub open spec fn server_hello(server_xpub: Seq<u8>, pq_public_key: Seq<u8>) -> Seq<u8> {
    server_hello_magic() + server_xpub + pq_public_key
}

/// The two public keys in a server hello.
pub open spec fn server_hello_keys(data: Seq<u8>) -> Option<(Seq<u8>, Seq<u8>)> {
    if data.len() < 40 || data.take(8) != server_hello_magic() {
        None
    } else {
        Some((data.subrange(8, 40), data.skip(40)))
    }
}

/// The tag that binds a client's public key and ciphertext to its tunnel token.
pub open spec fn auth_tag(
    tunnel_token: Seq<char>,
    client_xpub: Seq<u8>,
    pq_ciphertext: Seq<u8>,
) -> Seq<
    u8,
> {
    sha256_of(encode_utf8(tunnel_token) + client_xpub + pq_ciphertext)
}

/// The bytes of a client authentication with a given tag.
pub open spec fn client_auth(
    client_id: Seq<char>,
    client_xpub: Seq<u8>,
    pq_ciphertext: Seq<u8>,
    tag: Seq<u8>,
) -> Seq<u8> {
    client_auth_magic() + length_bytes(encode_utf8(client_id).len()) + encode_utf8(client_id)
        + client_xpub + pq_ciphertext + tag
}

/// What a client authentication carries.
pub struct AuthParts {
    pub client_id: Seq<char>,
    pub client_xpub: Seq<u8>,
    pub pq_ciphertext: Seq<u8>,
    pub tag: Seq<u8>,
}

/// The parts of a client authentication: the identity, 32 bytes of public key, the ciphertext, and
/// the last 32 bytes as the tag.
pub open spec fn client_auth_parts(data: Seq<u8>) -> Option<AuthParts> {
    let id_end = 10 + length_at(data, 8);
    if data.len() < 74 || data.take(8) != client_auth_magic() || data.len() < id_end + 64
        || !valid_utf8(data.subrange(10, id_end)) {
        None
    } else {
        Some(
            AuthParts {
                client_id: decode_utf8(data.subrange(10, id_end)),
                client_xpub: data.subrange(id_end, id_end + 32),
                pq_ciphertext: data.subrange(id_end + 32, data.len() - 32),
                tag: data.skip(data.len() - 32),
            },
        )
    }
}

/// The text of UTF-8 bytes.
fn utf8_text(data: &[u8]) -> (r: Option<String>)
    ensures
        match r {
            Some(text) => valid_utf8(data@) && text@ == decode_utf8(data@),
            None => !valid_utf8(data@),
        },
{
    match core::str::from_utf8(data) {
        Ok(text) => {
            proof {
                encode_utf8_decode_utf8(text@);
            }
            Some(text.to_owned())
        },
        Err(_) => None,
    }
}

/// Appends the two bytes of a length.
fn append_length(packet: &mut Vec<u8>, n: usize)
    ensures
        final(packet)@ == old(packet)@ + length_bytes(n as nat),
{
    packet.push(((n / 256) % 256) as u8);
    packet.push((n % 256) as u8);
    assert(packet@ =~= old(packet)@ + length_bytes(n as nat));
}

/// The client hello for an identity.
pub fn encode_client_hello(client_id: &str) -> (packet: Vec<u8>)
    ensures
        packet@ == client_hello(client_id@),
{
    let id = client_id.as_bytes();
    let mut packet: Vec<u8> = vec![78u8, 84, 90, 72, 69, 76, 76, 79];
    assert(packet@ =~= client_hello_magic());
    append_length(&mut packet, id.len());
    append_bytes(&mut packet, id);
    packet
}

/// The identity in a client hello.
pub fn decode_client_hello(data: &[u8]) -> (r: Option<String>)
    ensures
        match r {
            Some(text) => client_hello_id(data@) == Some(text@),
            None => client_hello_id(data@) is None,
        },
{
    if data.len() < 10 {
        return None;
    }
    let magic: [u8; 8] = [78, 84, 90, 72, 69, 76, 76, 79];
    assert(magic@ =~= client_hello_magic());
    let head = copy_range(data, 0, 8);
    assert(head@ =~= data@.take(8));
    if !bytes_eq(head.as_slice(), &magic) {
        return None;
    }
    let len: usize = data[8] as usize * 256 + data[9] as usize;
    if data.len() - 10 < len {
        return None;
    }
    let id = copy_range(data, 10, 10 + len);
    utf8_text(id.as_slice())
}

/// The server hello for two public keys.
pub fn encode_server_hello(server_xpub: &[u8; 32], pq_public_key: &[u8]) -> (packet: Vec<u8>)
    ensures
        packet@ == server_hello(server_xpub@, pq_public_key@),
{
    let mut packet: Vec<u8> = vec![78u8, 84, 90, 83, 72, 76, 79, 49];
    assert(packet@ =~= server_hello_magic());
    append_bytes(&mut packet, server_xpub);
    append_bytes(&mut packet, pq_public_key);
    packet
}

/// The two public keys in a server hello.
pub fn decode_server_hello(data: &[u8]) -> (r: Option<([u8; 32], Vec<u8>)>)
    ensures
        match r {
            Some((xpub, pq)) => server_hello_keys(data@) == Some((xpub@, pq@)),
            None => server_hello_keys(data@) is None,
        },
{
    if data.len() < 40 {
        return None;
    }
    let magic: [u8; 8] = [78, 84, 90, 83, 72, 76, 79, 49];
    assert(magic@ =~= server_hello_magic());
    let head = copy_range(data, 0, 8);
    assert(head@ =~= data@.take(8));
    if !bytes_eq(head.as_slice(), &magic) {
        return None;
    }
    let xpub = array_at::<32>(data, 8);
    let pq = copy_range(data, 40, data.len());
    assert(pq@ =~= data@.skip(40));
    Some((xpub, pq))
}

/// The client authentication of an identity, with the tag for its tunnel token.
pub fn encode_client_auth(
    client_id: &str,
    client_xpub: &[u8; 32],
    pq_ciphertext: &[u8],
    tunnel_token: &str,
) -> (packet: Vec<u8>)
    ensures
        packet@ == client_auth(
            client_id@,
            client_xpub@,
            pq_ciphertext@,
            auth_tag(tunnel_token@, client_xpub@, pq_ciphertext@),
        ),
        auth_tag(tunnel_token@, client_xpub@, pq_ciphertext@).len() == 32,
{
    let tag = compute_auth_tag(tunnel_token, client_xpub, pq_ciphertext);
    let id = client_id.as_bytes();
    let mut packet: Vec<u8> = vec![78u8, 84, 90, 65, 85, 84, 72, 49];
    assert(packet@ =~= client_auth_magic());
    append_length(&mut packet, id.len());
    append_bytes(&mut packet, id);
    append_bytes(&mut packet, client_xpub);
    append_bytes(&mut packet, pq_ciphertext);
    append_bytes(&mut packet, &tag);
    assert(tag@.len() == 32);
    packet
}

/// The identity, public key, ciphertext and tag of a client authentication.
pub fn decode_client_auth(data: &[u8]) -> (r: Option<(String, [u8; 32], Vec<u8>, [u8; 32])>)
    ensures
        match r {
            Some((id, xpub, ciphertext, tag)) => client_auth_parts(data@) == Some(
                AuthParts {
                    client_id: id@,
                    client_xpub: xpub@,
                    pq_ciphertext: ciphertext@,
                    tag: tag@,
                },
            ),
            None => client_auth_parts(data@) is None,
        },
{
    if data.len() < 74 {
        return None;
    }
    let magic: [u8; 8] = [78, 84, 90, 65, 85, 84, 72, 49];
    assert(magic@ =~= client_auth_magic());
    let head = copy_range(data, 0, 8);
    assert(head@ =~= data@.take(8));
    if !bytes_eq(head.as_slice(), &magic) {
        return None;
    }
    let id_len: usize = data[8] as usize * 256 + data[9] as usize;
    if data.len() - 74 < id_len {
        return None;
    }
    let id_end: usize = 10 + id_len;
    let tag_start: usize = data.len() - 32;
    let id = copy_range(data, 10, id_end);
    let client_id = match utf8_text(id.as_slice()) {
        Some(text) => text,
        None => {
            return None;
        },
    };
    let client_xpub = array_at::<32>(data, id_end);
    let pq_ciphertext = copy_range(data, id_end + 32, tag_start);
    let tag = array_at::<32>(data, tag_start);
    assert(tag@ =~= data@.skip(data@.len() - 32));
    Some((client_id, client_xpub, pq_ciphertext, tag))
}

/// The tag that binds a client's public key and ciphertext to its tunnel token: the digest of all
/// three.
pub fn compute_auth_tag(tunnel_token: &str, client_xpub: &[u8; 32], pq_ciphertext: &[u8]) -> (tag:
    [u8; 32])
    ensures
        tag@ == auth_tag(tunnel_token@, client_xpub@, pq_ciphertext@),
{
    let mut input: Vec<u8> = Vec::new();
    append_bytes(&mut input, tunnel_token.as_bytes());
    append_bytes(&mut input, client_xpub);
    append_bytes(&mut input, pq_ciphertext);
    assert(input@ =~= encode_utf8(tunnel_token@) + client_xpub@ + pq_ciphertext@);
    sha256(input.as_slice())
}

/// The two bytes of a length below 65536 are read back as that length.
proof fn lemma_length_round_trip(data: Seq<u8>, at: int, n: nat)
    requires
        n < 65536,
        0 <= at,
        at + 2 <= data.len(),
        data.subrange(at, at + 2) == length_bytes(n),
    ensures
        length_at(data, at) == n,
{
    assert(data[at] == data.subrange(at, at + 2)[0]);
    assert(data[at + 1] == data.subrange(at, at + 2)[1]);
    assert(n == (n / 256) * 256 + n % 256);
    assert((n / 256) % 256 == n / 256);
}

/// A client hello decodes to the identity that it was made for, whatever follows it. An identity
/// of 65536 bytes or more does not fit the length field.
pub proof fn law_client_hello_round_trip(client_id: Seq<char>, trailing: Seq<u8>)
    requires
        encode_utf8(client_id).len() < 65536,
    ensures
        client_hello_id(client_hello(client_id) + trailing) == Some(client_id),
{
    let id = encode_utf8(client_id);
    let data = client_hello(client_id) + trailing;
    assert(data.take(8) =~= client_hello_magic());
    assert(data.subrange(8, 10) =~= length_bytes(id.len()));
    lemma_length_round_trip(data, 8, id.len());
    assert(data.subrange(10, 10 + id.len() as int) =~= id);
    encode_utf8_valid_utf8(client_id);
    encode_utf8_decode_utf8(client_id);
}

/// A server hello decodes to the two keys that it was made of.
pub proof fn law_server_hello_round_trip(server_xpub: Seq<u8>, pq_public_key: Seq<u8>)
    requires
        server_xpub.len() == 32,
    ensures
        server_hello_keys(server_hello(server_xpub, pq_public_key)) == Some(
            (server_xpub, pq_public_key),
        ),
{
    let data = server_hello(server_xpub, pq_public_key);
    assert(data.take(8) =~= server_hello_magic());
    assert(data.subrange(8, 40) =~= server_xpub);
    assert(data.skip(40) =~= pq_public_key);
}

/// A client authentication decodes to the identity, key, ciphertext and tag that it was made of.
/// An identity of 65536 bytes or more does not fit the length field.
pub proof fn law_client_auth_round_trip(
    client_id: Seq<char>,
    client_xpub: Seq<u8>,
    pq_ciphertext: Seq<u8>,
    tag: Seq<u8>,
)
    requires
        encode_utf8(client_id).len() < 65536,
        client_xpub.len() == 32,
        tag.len() == 32,
    ensures
        client_auth_parts(client_auth(client_id, client_xpub, pq_ciphertext, tag)) == Some(
            AuthParts { client_id, client_xpub, pq_ciphertext, tag },
        ),
{
    let id = encode_utf8(client_id);
    let data = client_auth(client_id, client_xpub, pq_ciphertext, tag);
    assert(data.take(8) =~= client_auth_magic());
    assert(data.subrange(8, 10) =~= length_bytes(id.len()));
    lemma_length_round_trip(data, 8, id.len());
    let id_end = 10 + id.len() as int;
    assert(data.subrange(10, id_end) =~= id);
    encode_utf8_valid_utf8(client_id);
    encode_utf8_decode_utf8(client_id);
    assert(data.subrange(id_end, id_end + 32) =~= client_xpub);
    assert(data.subrange(id_end + 32, data.len() - 32) =~= pq_ciphertext);
    assert(data.skip(data.len() - 32) =~= tag);
}

/// The three kinds of message cannot be taken for one another.
pub proof fn law_messages_are_distinct(data: Seq<u8>)
    ensures
        client_hello_id(data) is Some ==> client_auth_parts(data) is None && server_hello_keys(
            data,
        ) is None,
        client_auth_parts(data) is Some ==> server_hello_keys(data) is None,
{
    assert(client_hello_magic()[3] == 72);
    assert(server_hello_magic()[3] == 83);
    assert(client_auth_magic()[3] == 65);
}

/// How the handshake messages are laid out: eight bytes that name the message, then for those of a
/// client the length of its identity in two bytes, most significant first, and the identity; for
/// the server its two keys; for an authentication the public key, the ciphertext and the tag.
pub proof fn law_message_layouts(
    client_id: Seq<char>,
    xpub: Seq<u8>,
    second: Seq<u8>,
    tag: Seq<u8>,
)
    requires
        encode_utf8(client_id).len() < 65536,
    ensures
        ({
            let id = encode_utf8(client_id);
            let length = seq![(id.len() / 256) as u8, (id.len() % 256) as u8];
            &&& client_hello(client_id) == seq![78u8, 84, 90, 72, 69, 76, 76, 79] + length + id
            &&& server_hello(xpub, second) == seq![78u8, 84, 90, 83, 72, 76, 79, 49] + xpub + second
            &&& client_auth(client_id, xpub, second, tag) == seq![
                78u8,
                84,
                90,
                65,
                85,
                84,
                72,
                49,
            ] + length + id + xpub + second + tag
        }),
{
}

/// The tag of an authentication is the digest of the tunnel token, the public key and the
/// ciphertext, in this order.
pub proof fn law_tag_binds_all_parts(token: Seq<char>, xpub: Seq<u8>, ciphertext: Seq<u8>)
    ensures
        auth_tag(token, xpub, ciphertext) == sha256_of(
            encode_utf8(token) + (xpub + ciphertext),
        ),
{
    assert(encode_utf8(token) + (xpub + ciphertext) =~= encode_utf8(token) + xpub + ciphertext);
}

/// Messages that are cut short are not read: a hello needs ten bytes, a server hello forty, an
/// authentication seventy-four.
pub proof fn law_short_messages_are_not_read(data: Seq<u8>)
    ensures
        data.len() < 10 ==> client_hello_id(data) is None,
        data.len() < 40 ==> server_hello_keys(data) is None,
        data.len() < 74 ==> client_auth_parts(data) is None,
{
}

} // verus!
