//! The pool of tunnel addresses that clients are given.

use std::collections::HashSet;
use vstd::prelude::*;

use crate::decimal::{decimal, law_decimal_round_trip, parse_int_spec, parse_u8};
use crate::ipv4::{
    ipv4_of, ipv4_syntax_error, ipv4_text, ipv4_to_text, law_ipv4_round_trip,
    lemma_ipv4_text_chars, parse_ipv4,
};
use crate::store::{ClientNode, ClientNodeView};
use crate::text::{first_of, split_once, split_once_spec, views};

verus! {

broadcast use vstd::std_specs::hash::group_hash_axioms;

/// The network address and the prefix length of a CIDR text.
pub open spec fn cidr_of(value: Seq<char>) -> Result<(u32, int), Seq<char>> {
    match split_once_spec(value, '/') {
        None => Err("CIDR must contain '/'"@),
        Some((network, prefix)) => match ipv4_of(network) {
            None => Err(ipv4_syntax_error()),
            Some(ip) => match parse_int_spec(prefix, 0, u8::MAX as int) {
                Ok(length) => Ok((ip, length)),
                Err(error) => Err(error.message_spec()),
            },
        },
    }
}

/// The network address and the prefix length of a CIDR text.
pub fn parse_cidr(value: &str) -> (r: Result<(u32, u8), String>)
    ensures
        match r {
            Ok((network, prefix)) => cidr_of(value@) == Ok::<(u32, int), Seq<char>>(
                (network, prefix as int),
            ),
            Err(message) => cidr_of(value@) == Err::<(u32, int), Seq<char>>(message@),
        },
{
    match split_once(value, '/') {
        None => Err(String::from_str("CIDR must contain '/'")),
        Some((network, prefix)) => match parse_ipv4(network.as_str()) {
            None => Err(String::from_str("invalid IPv4 address syntax")),
            Some(ip) => match parse_u8(prefix.as_str()) {
                Ok(length) => Ok((ip, length)),
                Err(error) => Err(error.message().to_owned()),
            },
        },
    }
}

/// `2` to the power of `n`.
pub open spec fn pow2(n: nat) -> nat
    decreases n,
{
    if n == 0 {
        1
    } else {
        2 * pow2((n - 1) as nat)
    }
}

/// How many addresses a network with a prefix length has.
pub open spec fn host_count(prefix: int) -> int {
    pow2((32 - prefix) as nat) as int
}

/// The first address of the pool, counted from the network address: small networks give away all
/// but the first two.
pub open spec fn first_offset(prefix: int) -> int {
    if host_count(prefix) > 16 {
        10
    } else {
        2
    }
}

/// The addresses that are taken: the server's and the clients'.
pub open spec fn taken(server_ip: u32, clients: Seq<ClientNodeView>) -> Set<int> {
    Set::new(
        |ip: int|
            ip == server_ip || exists|i: int|
                0 <= i < clients.len() && ipv4_of((#[trigger] clients[i]).assigned_ip) == Some(
                    ip as u32,
                ) && 0 <= ip <= u32::MAX,
    )
}

/// The first free address from an offset on; the last address of the network is never given away.
pub open spec fn first_free(network: u32, used: Set<int>, offset: int, end: int) -> Option<int>
    decreases end - offset,
{
    if offset >= end {
        None
    } else if !used.contains(network + offset) {
        Some(network + offset)
    } else {
        first_free(network, used, offset + 1, end)
    }
}

/// The address that the next client is given, as a number.
pub open spec fn next_address(
    network: u32,
    prefix: int,
    server_ip: u32,
    clients: Seq<ClientNodeView>,
) -> Option<
    int,
> {
    first_free(
        network,
        taken(server_ip, clients),
        first_offset(prefix),
        host_count(prefix) - 1,
    )
}

/// Whether the pool can be counted through: the prefix length is one of an IPv4 network, and the
/// next free address is still an IPv4 address.
pub open spec fn pool_is_countable(
    cidr: Seq<char>,
    server_ip: Seq<char>,
    clients: Seq<ClientNodeView>,
) -> bool {
    cidr_of(cidr) matches Ok((network, prefix)) ==> {
        &&& 1 <= prefix <= 32
        &&& ipv4_of(server_ip) matches Some(server) ==> (next_address(
            network,
            prefix,
            server,
            clients,
        ) matches Some(ip) ==> ip <= u32::MAX)
    }
}

/// The text of the address that the next client is given.
pub open spec fn allocated_ip(
    cidr: Seq<char>,
    server_ip: Seq<char>,
    clients: Seq<ClientNodeView>,
) -> Result<
    Seq<char>,
    Seq<char>,
> {
    match cidr_of(cidr) {
        Err(message) => Err(message),
        Ok((network, prefix)) => match ipv4_of(server_ip) {
            None => Err("invalid server IP: "@ + ipv4_syntax_error()),
            Some(server) => match next_address(network, prefix, server, clients) {
                Some(ip) => Ok(ipv4_text(ip as u32)),
                None => Err("no available client IPs in pool"@),
            },
        },
    }
}

/// The addresses that are taken.
fn taken_addresses(server_ip: u32, clients: &Vec<ClientNode>) -> (used: HashSet<u32>)
    ensures
        forall|ip: u32| #[trigger] used@.contains(ip) == taken(server_ip, views(clients@)).contains(
            ip as int,
        ),
{
    let mut used: HashSet<u32> = HashSet::new();
    used.insert(server_ip);
    let n: usize = clients.len();
    let ghost rows = views(clients@);
    for i in 0..n
        invariant
            n == clients@.len(),
            rows == views(clients@),
            forall|ip: u32| #[trigger]
                used@.contains(ip) == (ip == server_ip || exists|j: int|
                    0 <= j < i && ipv4_of((#[trigger] rows[j]).assigned_ip) == Some(ip)),
    {
        assert(rows[i as int].assigned_ip == clients@[i as int].assigned_ip@);
        let ghost before = used@;
        match parse_ipv4(clients[i].assigned_ip.as_str()) {
            Some(found) => {
                used.insert(found);
                assert forall|ip: u32| #[trigger] used@.contains(ip) == (ip == server_ip || exists|
                    j: int,
                |
                    0 <= j < i + 1 && ipv4_of((#[trigger] rows[j]).assigned_ip) == Some(ip)) by {
                    if ip == found {
                        assert(ipv4_of(rows[i as int].assigned_ip) == Some(ip));
                    } else {
                        assert(used@.contains(ip) == before.contains(ip));
                    }
                }
            },
            None => {
                assert forall|ip: u32| #[trigger] used@.contains(ip) == (ip == server_ip || exists|
                    j: int,
                |
                    0 <= j < i + 1 && ipv4_of((#[trigger] rows[j]).assigned_ip) == Some(ip)) by {
                    assert(used@.contains(ip) == before.contains(ip));
                }
            },
        }
    }
    used
}

/// How many addresses a network has.
fn count_hosts(prefix: u8) -> (n: u32)
    requires
        1 <= prefix <= 32,
    ensures
        n == host_count(prefix as int),
        1 <= n <= 0x8000_0000,
{
    let mut n: u32 = 1;
    let mut i: u8 = 32;
    assert(pow2(31) == 0x8000_0000) by {
        reveal_with_fuel(pow2, 32);
    }
    while i > prefix
        invariant
            1 <= prefix <= i <= 32,
            n == pow2((32 - i) as nat),
            1 <= n <= 0x8000_0000,
            pow2(31) == 0x8000_0000,
        decreases i,
    {
        proof {
            lemma_pow2_monotone((32 - (i - 1)) as nat, 31);
        }
        n = n * 2;
        i = i - 1;
    }
    n
}

/// Powers of two grow.
proof fn lemma_pow2_monotone(a: nat, b: nat)
    requires
        a <= b,
    ensures
        1 <= pow2(a) <= pow2(b),
    decreases b,
{
    if b > 0 {
        if a == b {
            lemma_pow2_monotone((a - 1) as nat, (b - 1) as nat);
        } else {
            lemma_pow2_monotone(a, (b - 1) as nat);
        }
    }
}

/// What the search for a free address comes to.
enum Search {
    Found(u32),
    Exhausted,
    OutOfRange,
}

/// Looks for the first free address.
fn find_free(network: u32, prefix: u8, server_ip: u32, clients: &Vec<ClientNode>) -> (r: Search)
    requires
        1 <= prefix <= 32,
    ensures
        match r {
            Search::Found(ip) => next_address(network, prefix as int, server_ip, views(clients@))
                == Some(ip as int),
            Search::Exhausted => next_address(network, prefix as int, server_ip, views(clients@))
                is None,
            Search::OutOfRange => next_address(network, prefix as int, server_ip, views(clients@))
                matches Some(ip) && ip > u32::MAX,
        },
{
    let hosts: u32 = count_hosts(prefix);
    let used = taken_addresses(server_ip, clients);
    let ghost all = taken(server_ip, views(clients@));
    let start: u32 = if hosts > 16 {
        10
    } else {
        2
    };
    let end: u32 = hosts - 1;
    let mut offset: u32 = start;
    while offset < end
        invariant
            start <= offset,
            end == host_count(prefix as int) - 1,
            all == taken(server_ip, views(clients@)),
            forall|ip: u32| #[trigger] used@.contains(ip) == all.contains(ip as int),
            next_address(network, prefix as int, server_ip, views(clients@)) == first_free(
                network,
                all,
                offset as int,
                end as int,
            ),
        decreases end - offset,
    {
        if offset > 0xffff_ffff - network {
            assert(!all.contains(network + offset));
            return Search::OutOfRange;
        }
        let candidate: u32 = network + offset;
        assert(used@.contains(candidate) == all.contains(candidate as int));
        if !used.contains(&candidate) {
            return Search::Found(candidate);
        }
        offset = offset + 1;
    }
    Search::Exhausted
}

/// The address for the next client: the first one of the network that neither the server nor a
/// client has, the lowest ones and the last one left out.
pub fn allocate_client_ip(clients: &Vec<ClientNode>, cidr: &str, server_ip: &str) -> (r: Result<
    String,
    String,
>)
    requires
        pool_is_countable(cidr@, server_ip@, views(clients@)),
    ensures
        match r {
            Ok(ip) => allocated_ip(cidr@, server_ip@, views(clients@)) == Ok::<
                Seq<char>,
                Seq<char>,
            >(ip@),
            Err(message) => allocated_ip(cidr@, server_ip@, views(clients@)) == Err::<
                Seq<char>,
                Seq<char>,
            >(message@),
        },
{
    let (network, prefix) = match parse_cidr(cidr) {
        Ok(parts) => parts,
        Err(message) => {
            return Err(message);
        },
    };
    let server: u32 = match parse_ipv4(server_ip) {
        Some(ip) => ip,
        None => {
            let mut message = String::from_str("invalid server IP: ");
            message.append("invalid IPv4 address syntax");
            return Err(message);
        },
    };
    match find_free(network, prefix, server, clients) {
        Search::Found(ip) => Ok(ipv4_to_text(ip)),
        _ => Err(String::from_str("no available client IPs in pool")),
    }
}

/// Whether the pool can be counted through.
pub fn client_pool_is_countable(clients: &Vec<ClientNode>, cidr: &str, server_ip: &str) -> (r: bool)
    ensures
        r == pool_is_countable(cidr@, server_ip@, views(clients@)),
{
    match parse_cidr(cidr) {
        Err(_) => true,
        Ok((network, prefix)) => if prefix < 1 || prefix > 32 {
            false
        } else {
            match parse_ipv4(server_ip) {
                None => true,
                Some(server) => match find_free(network, prefix, server, clients) {
                    Search::OutOfRange => false,
                    _ => true,
                },
            }
        },
    }
}

/// What the search finds lies in the searched range and is free.
proof fn lemma_first_free(network: u32, used: Set<int>, offset: int, end: int)
    ensures
        match first_free(network, used, offset, end) {
            Some(ip) => network + offset <= ip < network + end && !used.contains(ip) && forall|
                other: int,
            |
                network + offset <= other < ip ==> #[trigger] used.contains(other),
            None => forall|other: int|
                network + offset <= other < network + end ==> #[trigger] used.contains(other),
        },
    decreases end - offset,
{
    if offset < end && used.contains(network + offset) {
        lemma_first_free(network, used, offset + 1, end);
    }
}

/// A client is given an address of the network that is neither its first nor its last, nor the
/// server's, nor another client's, and the lowest such one; there is none exactly where all are
/// taken.
pub proof fn law_allocated_address_is_free(
    network: u32,
    prefix: int,
    server_ip: u32,
    clients: Seq<ClientNodeView>,
)
    requires
        1 <= prefix <= 32,
    ensures
        match next_address(network, prefix, server_ip, clients) {
            Some(ip) => {
                &&& network + first_offset(prefix) <= ip < network + host_count(prefix) - 1
                &&& ip != server_ip
                &&& forall|i: int|
                    0 <= i < clients.len() && ip <= u32::MAX ==> ipv4_of(
                        (#[trigger] clients[i]).assigned_ip,
                    ) != Some(ip as u32)
                &&& forall|lower: int|
                    network + first_offset(prefix) <= lower < ip ==> #[trigger] taken(
                        server_ip,
                        clients,
                    ).contains(lower)
            },
            None => forall|ip: int|
                network + first_offset(prefix) <= ip < network + host_count(prefix) - 1
                    ==> #[trigger] taken(server_ip, clients).contains(ip),
        },
{
    lemma_first_free(
        network,
        taken(server_ip, clients),
        first_offset(prefix),
        host_count(prefix) - 1,
    );
    if let Some(ip) = next_address(network, prefix, server_ip, clients) {
        let used = taken(server_ip, clients);
        assert(!used.contains(ip));
        assert forall|i: int| 0 <= i < clients.len() && ip <= u32::MAX implies ipv4_of(
            (#[trigger] clients[i]).assigned_ip,
        ) != Some(ip as u32) by {
            if ipv4_of(clients[i].assigned_ip) == Some(ip as u32) {
                assert(used.contains(ip));
            }
        }
    }
}

/// How many addresses a network has: one for a prefix of 32, and twice as many for each bit less.
/// The pool starts at the tenth address of a network with more than sixteen, that is with a prefix
/// of 27 or less, and at the second of a smaller one.
pub proof fn law_pool_sizes(prefix: int)
    requires
        0 <= prefix < 32,
    ensures
        host_count(32) == 1,
        host_count(prefix) == 2 * host_count(prefix + 1),
        host_count(24) == 256,
        prefix <= 27 ==> first_offset(prefix) == 10,
        prefix > 27 ==> first_offset(prefix) == 2,
        first_offset(32) == 2,
{
    reveal_with_fuel(pow2, 10);
    if prefix <= 27 {
        lemma_pow2_monotone(5, (32 - prefix) as nat);
    } else {
        lemma_pow2_monotone((32 - prefix) as nat, 4);
    }
}

/// Whether an address is in use: the server or a client has it.
pub open spec fn is_in_use(ip: int, server_ip: u32, clients: Seq<ClientNodeView>) -> bool {
    ip == server_ip || exists|i: int|
        0 <= i < clients.len() && (ipv4_of((#[trigger] clients[i]).assigned_ip) matches Some(other)
            && other == ip)
}

/// The next client gets the lowest address of the pool that is not in use: the pool leaves out the
/// first ten addresses of a network (the first two of a small one) and its last. Where all are in
/// use there is none.
pub proof fn law_next_address_is_the_lowest_free(
    network: u32,
    prefix: int,
    server_ip: u32,
    clients: Seq<ClientNodeView>,
    candidate: int,
)
    requires
        1 <= prefix <= 32,
        network + (if prefix <= 27 {
            10int
        } else {
            2
        }) <= candidate < network + pow2((32 - prefix) as nat) - 1,
        candidate <= u32::MAX,
        !is_in_use(candidate, server_ip, clients),
    ensures
        ({
            &&& next_address(network, prefix, server_ip, clients) matches Some(ip)
            &&& network + (if prefix <= 27 {
                10int
            } else {
                2
            }) <= ip <= candidate
            &&& !is_in_use(ip, server_ip, clients)
        }),
{
    if prefix < 32 {
        law_pool_sizes(prefix);
    }
    law_allocated_address_is_free(network, prefix, server_ip, clients);
    let used = taken(server_ip, clients);
    assert(!used.contains(candidate)) by {
        if used.contains(candidate) && candidate != server_ip {
            let i = choose|i: int|
                0 <= i < clients.len() && ipv4_of((#[trigger] clients[i]).assigned_ip) == Some(
                    candidate as u32,
                ) && 0 <= candidate <= u32::MAX;
            assert(ipv4_of(clients[i].assigned_ip) == Some(candidate as u32));
        }
    }
    lemma_first_free(network, used, first_offset(prefix), host_count(prefix) - 1);
    let ip = next_address(network, prefix, server_ip, clients)->Some_0;
    assert(!used.contains(ip));
    if is_in_use(ip, server_ip, clients) && ip != server_ip {
        let i = choose|i: int|
            0 <= i < clients.len() && (ipv4_of((#[trigger] clients[i]).assigned_ip) matches Some(
                other,
            ) && other == ip);
        assert(ipv4_of(clients[i].assigned_ip) == Some(ip as u32));
    }
}

/// An address is given out in its dotted notation; where there is none to give, or the network or
/// the server's address cannot be read, that is an error.
pub proof fn law_allocated_text(
    cidr: Seq<char>,
    server_ip: Seq<char>,
    clients: Seq<ClientNodeView>,
    network: u32,
    prefix: int,
    server: u32,
)
    requires
        cidr_of(cidr) == Ok::<(u32, int), Seq<char>>((network, prefix)),
        ipv4_of(server_ip) == Some(server),
    ensures
        match next_address(network, prefix, server, clients) {
            Some(ip) => 0 <= ip <= u32::MAX ==> (allocated_ip(cidr, server_ip, clients) matches Ok(
                text,
            ) && ipv4_of(text) == Some(ip as u32)),
            None => allocated_ip(cidr, server_ip, clients) == Err::<Seq<char>, Seq<char>>(
                "no available client IPs in pool"@,
            ),
        },
{
    if let Some(ip) = next_address(network, prefix, server, clients) {
        law_ipv4_round_trip(ip as u32);
    }
}

/// A network is written as an address, a slash and a prefix length, and is read back as these; a
/// text without a slash is no network.
pub proof fn law_networks_are_read(ip: u32, prefix: nat, text: Seq<char>)
    requires
        prefix <= 255,
    ensures
        cidr_of(ipv4_text(ip).push('/') + decimal(prefix as int)) == Ok::<(u32, int), Seq<char>>(
            (ip, prefix as int),
        ),
        (forall|i: int| 0 <= i < text.len() ==> (#[trigger] text[i]) != '/') ==> cidr_of(text)
            == Err::<(u32, int), Seq<char>>("CIDR must contain '/'"@),
{
    let head = ipv4_text(ip);
    let tail = decimal(prefix as int);
    lemma_ipv4_text_chars(ip);
    lemma_first_of_append(head, tail, '/');
    law_ipv4_round_trip(ip);
    law_decimal_round_trip(prefix, 255);
    assert((head.push('/') + tail).take(head.len() as int) =~= head);
    assert((head.push('/') + tail).skip((head.len() + 1) as int) =~= tail);
    if forall|i: int| 0 <= i < text.len() ==> (#[trigger] text[i]) != '/' {
        lemma_first_of_none(text, '/');
    }
}

/// The first occurrence of a character stands behind a head without it.
proof fn lemma_first_of_append(head: Seq<char>, tail: Seq<char>, c: char)
    requires
        forall|i: int| 0 <= i < head.len() ==> (#[trigger] head[i]) != c,
    ensures
        first_of(head.push(c) + tail, c) == head.len(),
    decreases head.len(),
{
    let s = head.push(c) + tail;
    if head.len() > 0 {
        assert(s[0] == head[0]);
        assert(s.skip(1) =~= head.skip(1).push(c) + tail);
        assert forall|i: int| 0 <= i < head.skip(1).len() implies (#[trigger] head.skip(1)[i])
            != c by {
            assert(head[i + 1] != c);
        }
        lemma_first_of_append(head.skip(1), tail, c);
    } else {
        assert(s[0] == c);
    }
}

/// A text without a character has no first one.
proof fn lemma_first_of_none(s: Seq<char>, c: char)
    requires
        forall|i: int| 0 <= i < s.len() ==> (#[trigger] s[i]) != c,
    ensures
        first_of(s, c) == s.len(),
    decreases s.len(),
{
    if s.len() > 0 {
        assert(s[0] != c);
        assert forall|i: int| 0 <= i < s.skip(1).len() implies (#[trigger] s.skip(1)[i]) != c by {
            assert(s[i + 1] != c);
        }
        lemma_first_of_none(s.skip(1), c);
    }
}

} // verus!
