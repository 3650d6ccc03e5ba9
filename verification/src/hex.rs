//! Hexadecimal texts: digests and random tokens.

use uuid::Uuid;
use vstd::prelude::*;
use vstd::utf8::encode_utf8;

use crate::primitives::{os_random_bytes, sha256, sha256_of};

verus! {

/// The hexadecimal digit, in lower case, for a value below 16.
pub open spec fn hex_digit(value: int) -> char
    recommends
        0 <= value < 16,
{
    if value < 10 {
        crate::decimal::digit_char(value)
    } else if value == 10 {
        'a'
    } else if value == 11 {
        'b'
    } else if value == 12 {
        'c'
    } else if value == 13 {
        'd'
    } else if value == 14 {
        'e'
    } else {
        'f'
    }
}

/// The two digits of each byte.
pub open spec fn hex_of(bytes: Seq<u8>) -> Seq<char>
    decreases bytes.len(),
{
    if bytes.len() == 0 {
        Seq::empty()
    } else {
        hex_of(bytes.drop_last()).push(hex_digit(bytes.last() as int / 16)).push(
            hex_digit(bytes.last() as int % 16),
        )
    }
}

/// Whether a character is a hexadecimal digit in lower case.
pub open spec fn is_hex_digit(c: char) -> bool {
    '0' <= c <= '9' || 'a' <= c <= 'f'
}

/// Whether a text is made of `n` hexadecimal digits in lower case.
pub open spec fn is_hex_text(s: Seq<char>, n: nat) -> bool {
    s.len() == n && forall|i: int| 0 <= i < s.len() ==> is_hex_digit(#[trigger] s[i])
}

/// The digest of a text, in hexadecimal.
pub open spec fn sha256_hex_of(value: Seq<char>) -> Seq<char> {
    hex_of(sha256_of(encode_utf8(value)))
}

/// The hexadecimal digit for a value below 16.
fn hex_char(value: u8) -> (c: char)
    requires
        value < 16,
    ensures
        c == hex_digit(value as int),
{
    match value {
        0 => '0',
        1 => '1',
        2 => '2',
        3 => '3',
        4 => '4',
        5 => '5',
        6 => '6',
        7 => '7',
        8 => '8',
        9 => '9',
        10 => 'a',
        11 => 'b',
        12 => 'c',
        13 => 'd',
        14 => 'e',
        _ => 'f',
    }
}

/// The two digits of each byte.
pub fn encode_hex(bytes: &[u8]) -> (output: String)
    ensures
        output@ == hex_of(bytes@),
{
    let mut output = String::new();
    let n: usize = bytes.len();
    assert(output@ =~= hex_of(bytes@.take(0)));
    for i in 0..n
        invariant
            n == bytes@.len(),
            output@ == hex_of(bytes@.take(i as int)),
    {
        assert(bytes@.take(i + 1).drop_last() =~= bytes@.take(i as int));
        output.push(hex_char(bytes[i] / 16));
        output.push(hex_char(bytes[i] % 16));
    }
    assert(bytes@.take(n as int) =~= bytes@);
    output
}

/// The digest of a text, in hexadecimal.
pub fn sha256_hex(value: &str) -> (r: String)
    ensures
        r@ == sha256_hex_of(value@),
{
    let digest = sha256(value.as_bytes());
    encode_hex(&digest)
}

/// Two digits for each byte, and nothing but digits.
pub proof fn law_hex_shape(bytes: Seq<u8>)
    ensures
        is_hex_text(hex_of(bytes), 2 * bytes.len()),
    decreases bytes.len(),
{
    if bytes.len() > 0 {
        law_hex_shape(bytes.drop_last());
        let before = hex_of(bytes.drop_last());
        let all = hex_of(bytes);
        assert forall|i: int| 0 <= i < all.len() implies is_hex_digit(#[trigger] all[i]) by {
            if i < before.len() {
                assert(all[i] == before[i]);
            }
        }
    }
}

/// Different bytes have different texts.
pub proof fn law_hex_is_injective(a: Seq<u8>, b: Seq<u8>)
    requires
        hex_of(a) == hex_of(b),
    ensures
        a == b,
    decreases a.len(),
{
    law_hex_shape(a);
    law_hex_shape(b);
    if a.len() > 0 {
        let x = hex_of(a);
        let y = hex_of(b);
        let n = x.len() as int;
        assert(x[n - 1] == y[n - 1]);
        assert(x[n - 2] == y[n - 2]);
        assert(x.take(n - 2) =~= hex_of(a.drop_last()));
        assert(y.take(n - 2) =~= hex_of(b.drop_last()));
        law_hex_is_injective(a.drop_last(), b.drop_last());
        assert(a.last() == b.last());
        assert(a =~= a.drop_last().push(a.last()));
        assert(b =~= b.drop_last().push(b.last()));
    } else {
        assert(a =~= b);
    }
}

/// A fresh secret of 24 random bytes, in hexadecimal. Nothing else is known of it.
pub fn random_token() -> (token: String)
    ensures
        is_hex_text(token@, 48),
{
    let bytes = os_random_bytes(24);
    proof {
        law_hex_shape(bytes@);
    }
    encode_hex(bytes.as_slice())
}

/// Whether a text has the shape of a UUID: 36 characters, hyphens at four places, hexadecimal
/// digits in lower case elsewhere.
pub open spec fn is_uuid_text(s: Seq<char>) -> bool {
    &&& s.len() == 36
    &&& forall|i: int|
        0 <= i < 36 ==> if i == 8 || i == 13 || i == 18 || i == 23 {
            #[trigger] s[i] == '-'
        } else {
            is_hex_digit(s[i])
        }
}

/// `uuid::Uuid::new_v4`, as hyphenated text: a random identity of that shape. Nothing else is said
/// of its value.
#[verifier::external_body]
fn uuid_v4_text() -> (id: String)
    ensures
        is_uuid_text(id@),
{
    Uuid::new_v4().to_string()
}

/// A fresh identity for an agent. Nothing but its shape is known of it.
pub fn new_agent_id() -> (id: String)
    ensures
        is_uuid_text(id@),
{
    uuid_v4_text()
}

/// The text of bytes has, for each of them, the digit of its upper half and the digit of its lower
/// half.
pub proof fn law_hex_digits(bytes: Seq<u8>, i: int)
    requires
        0 <= i < bytes.len(),
    ensures
        hex_of(bytes).len() == 2 * bytes.len(),
        hex_of(bytes)[2 * i] == "0123456789abcdef"@[bytes[i] as int / 16],
        hex_of(bytes)[2 * i + 1] == "0123456789abcdef"@[bytes[i] as int % 16],
    decreases bytes.len(),
{
    reveal_strlit("0123456789abcdef");
    law_hex_shape(bytes);
    law_hex_shape(bytes.drop_last());
    if i < bytes.len() - 1 {
        law_hex_digits(bytes.drop_last(), i);
        assert(bytes.drop_last()[i] == bytes[i]);
    }
}

} // verus!
