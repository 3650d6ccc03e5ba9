//! IPv4 addresses as 32-bit numbers, and their dotted notation.

use vstd::arithmetic::div_mod::lemma_fundamental_div_mod_converse;
use vstd::prelude::*;

use crate::decimal::{
    decimal, decimal_u64, law_decimal_round_trip, lemma_decimal_nat_digits, parse_u8,
};
use crate::text::{lemma_split_not_empty, split, split_spec, text_eq, views, CharClass};

verus! {

/// What a text that is no address is answered with.
pub open spec fn ipv4_syntax_error() -> Seq<char> {
    "invalid IPv4 address syntax"@
}

/// Byte `i` of an address, counted from the most significant.
pub open spec fn octet(ip: u32, i: int) -> int {
    if i == 0 {
        ip as int / 16777216
    } else if i == 1 {
        (ip as int / 65536) % 256
    } else if i == 2 {
        (ip as int / 256) % 256
    } else {
        ip as int % 256
    }
}

/// The address of four bytes.
pub open spec fn ipv4_from(a: int, b: int, c: int, d: int) -> u32 {
    (a * 16777216 + b * 65536 + c * 256 + d) as u32
}

/// The dotted notation of an address.
pub open spec fn ipv4_text(ip: u32) -> Seq<char> {
    decimal(octet(ip, 0)) + seq!['.'] + decimal(octet(ip, 1)) + seq!['.'] + decimal(octet(ip, 2))
        + seq!['.'] + decimal(octet(ip, 3))
}

/// The address that a text is the dotted notation of, if it is one.
pub open spec fn ipv4_of(s: Seq<char>) -> Option<u32> {
    if exists|ip: u32| ipv4_text(ip) == s {
        Some(choose|ip: u32| ipv4_text(ip) == s)
    } else {
        None
    }
}

/// Splitting a text that ends in a separator-free piece.
proof fn lemma_split_append(head: Seq<char>, tail: Seq<char>, class: CharClass)
    requires
        forall|i: int| 0 <= i < tail.len() ==> !crate::text::in_class(#[trigger] tail[i], class),
    ensures
        split_spec(head + tail, class) == split_spec(head, class).drop_last().push(
            split_spec(head, class).last() + tail,
        ),
    decreases tail.len(),
{
    lemma_split_not_empty(head, class);
    let before = split_spec(head, class);
    if tail.len() == 0 {
        assert(head + tail =~= head);
        assert(before.last() + tail =~= before.last());
        assert(before.drop_last().push(before.last()) =~= before);
    } else {
        let shorter = tail.drop_last();
        lemma_split_append(head, shorter, class);
        assert((head + tail).drop_last() =~= head + shorter);
        let mid = split_spec(head + shorter, class);
        assert(mid.drop_last() =~= before.drop_last());
        assert(before.last() + tail =~= (before.last() + shorter).push(tail.last()));
    }
}

/// The pieces of the dotted notation of an address are the notations of its bytes.
proof fn lemma_split_ipv4_text(ip: u32)
    ensures
        split_spec(ipv4_text(ip), CharClass::Dot) == seq![
            decimal(octet(ip, 0)),
            decimal(octet(ip, 1)),
            decimal(octet(ip, 2)),
            decimal(octet(ip, 3)),
        ],
{
    let dot = seq!['.'];
    let a = decimal(octet(ip, 0));
    let b = decimal(octet(ip, 1));
    let c = decimal(octet(ip, 2));
    let d = decimal(octet(ip, 3));
    lemma_decimal_nat_digits(octet(ip, 0) as nat);
    lemma_decimal_nat_digits(octet(ip, 1) as nat);
    lemma_decimal_nat_digits(octet(ip, 2) as nat);
    lemma_decimal_nat_digits(octet(ip, 3) as nat);
    let none = Seq::<char>::empty();
    lemma_split_append(none, a, CharClass::Dot);
    assert(none + a =~= a);
    assert(split_spec(a, CharClass::Dot) =~= seq![a]);
    let s1 = a + dot;
    assert(s1.drop_last() =~= a);
    assert(split_spec(s1, CharClass::Dot) =~= seq![a, none]);
    lemma_split_append(s1, b, CharClass::Dot);
    assert(none + b =~= b);
    assert(split_spec(s1 + b, CharClass::Dot) =~= seq![a, b]);
    let s2 = s1 + b + dot;
    assert(s2.drop_last() =~= s1 + b);
    assert(split_spec(s2, CharClass::Dot) =~= seq![a, b, none]);
    lemma_split_append(s2, c, CharClass::Dot);
    assert(none + c =~= c);
    assert(split_spec(s2 + c, CharClass::Dot) =~= seq![a, b, c]);
    let s3 = s2 + c + dot;
    assert(s3.drop_last() =~= s2 + c);
    assert(split_spec(s3, CharClass::Dot) =~= seq![a, b, c, none]);
    lemma_split_append(s3, d, CharClass::Dot);
    assert(none + d =~= d);
    assert(split_spec(s3 + d, CharClass::Dot) =~= seq![a, b, c, d]);
}

/// An address is put together from its bytes.
proof fn lemma_ipv4_from_octets(ip: u32)
    ensures
        ipv4_from(octet(ip, 0), octet(ip, 1), octet(ip, 2), octet(ip, 3)) == ip,
        forall|i: int| 0 <= i < 4 ==> 0 <= #[trigger] octet(ip, i) <= 255,
{
    let n = ip as int;
    assert(n == (n / 16777216) * 16777216 + ((n / 65536) % 256) * 65536 + ((n / 256) % 256) * 256
        + n % 256);
}

/// Different addresses have different notations, so that reading the notation of an address gives
/// the address back.
pub proof fn law_ipv4_round_trip(ip: u32)
    ensures
        ipv4_of(ipv4_text(ip)) == Some(ip),
{
    let s = ipv4_text(ip);
    assert(ipv4_text(ip) == s);
    let other = choose|other: u32| ipv4_text(other) == s;
    lemma_split_ipv4_text(ip);
    lemma_split_ipv4_text(other);
    lemma_ipv4_from_octets(ip);
    lemma_ipv4_from_octets(other);
    let p = split_spec(s, CharClass::Dot);
    assert forall|i: int| 0 <= i < 4 implies octet(ip, i) == octet(other, i) by {
        law_decimal_round_trip(octet(ip, i) as nat, 255);
        law_decimal_round_trip(octet(other, i) as nat, 255);
        assert(p[i] == decimal(octet(ip, i)));
        assert(p[i] == decimal(octet(other, i)));
    }
}

/// The dotted notation of an address.
pub fn ipv4_to_text(ip: u32) -> (r: String)
    ensures
        r@ == ipv4_text(ip),
{
    let mut r = decimal_u64((ip / 16777216) as u64);
    r.push('.');
    let b = decimal_u64(((ip / 65536) % 256) as u64);
    r.append(b.as_str());
    r.push('.');
    let c = decimal_u64(((ip / 256) % 256) as u64);
    r.append(c.as_str());
    r.push('.');
    let d = decimal_u64((ip % 256) as u64);
    r.append(d.as_str());
    assert(r@ =~= ipv4_text(ip));
    r
}

/// The address that a text is the dotted notation of: four numbers below 256 without leading
/// zeros, with dots between them.
pub fn parse_ipv4(s: &str) -> (r: Option<u32>)
    ensures
        r == ipv4_of(s@),
{
    let pieces = split(s, CharClass::Dot);
    proof {
        if exists|ip: u32| ipv4_text(ip) == s@ {
            let ip = choose|ip: u32| ipv4_text(ip) == s@;
            lemma_split_ipv4_text(ip);
            lemma_ipv4_from_octets(ip);
            law_decimal_round_trip(octet(ip, 0) as nat, 255);
            law_decimal_round_trip(octet(ip, 1) as nat, 255);
            law_decimal_round_trip(octet(ip, 2) as nat, 255);
            law_decimal_round_trip(octet(ip, 3) as nat, 255);
            let p = split_spec(s@, CharClass::Dot);
            assert(views(pieces@).len() == p.len());
            assert(pieces@[0]@ == p[0]);
            assert(pieces@[1]@ == p[1]);
            assert(pieces@[2]@ == p[2]);
            assert(pieces@[3]@ == p[3]);
        }
    }
    if pieces.len() != 4 {
        return None;
    }
    match (
        parse_u8(pieces[0].as_str()),
        parse_u8(pieces[1].as_str()),
        parse_u8(pieces[2].as_str()),
        parse_u8(pieces[3].as_str()),
    ) {
        (Ok(a), Ok(b), Ok(c), Ok(d)) => {
            let ip: u32 = a as u32 * 16777216 + b as u32 * 65536 + c as u32 * 256 + d as u32;
            let canonical = ipv4_to_text(ip);
            if text_eq(canonical.as_str(), s) {
                proof {
                    law_ipv4_round_trip(ip);
                }
                Some(ip)
            } else {
                None
            }
        },
        _ => None,
    }
}

/// The dotted notation of an address holds digits and dots only.
pub proof fn lemma_ipv4_text_chars(ip: u32)
    ensures
        forall|i: int|
            0 <= i < ipv4_text(ip).len() ==> crate::decimal::is_digit(#[trigger] ipv4_text(ip)[i])
                || ipv4_text(ip)[i] == '.',
{
    lemma_ipv4_from_octets(ip);
    lemma_decimal_nat_digits(octet(ip, 0) as nat);
    lemma_decimal_nat_digits(octet(ip, 1) as nat);
    lemma_decimal_nat_digits(octet(ip, 2) as nat);
    lemma_decimal_nat_digits(octet(ip, 3) as nat);
}

/// The notation of an address is its four bytes in decimal, the most significant first, with dots
/// between them.
pub proof fn law_dotted_notation(a: u8, b: u8, c: u8, d: u8)
    ensures
        ipv4_text((a * 16777216 + b * 65536 + c * 256 + d) as u32) == decimal(a as int) + seq!['.']
            + decimal(b as int) + seq!['.'] + decimal(c as int) + seq!['.'] + decimal(d as int),
{
    let n = a * 16777216 + b * 65536 + c * 256 + d;
    lemma_fundamental_div_mod_converse(n, 16777216, a as int, b * 65536 + c * 256 + d);
    lemma_fundamental_div_mod_converse(n, 65536, a * 256 + b, c * 256 + d);
    lemma_fundamental_div_mod_converse(a * 256 + b, 256, a as int, b as int);
    lemma_fundamental_div_mod_converse(n, 256, a * 65536 + b * 256 + c, d as int);
    lemma_fundamental_div_mod_converse(a * 65536 + b * 256 + c, 256, a * 256 + b, c as int);
    assert(octet(n as u32, 0) == a);
    assert(octet(n as u32, 1) == b);
    assert(octet(n as u32, 2) == c);
    assert(octet(n as u32, 3) == d);
}

} // verus!
