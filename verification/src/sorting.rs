//! Sorting by text: texts are compared byte by byte in their UTF-8 encoding, and rows with the same
//! text keep their order.

use vstd::prelude::*;
use vstd::utf8::encode_utf8;

use crate::text::views;

verus! {

/// Whether `a` comes before `b` in a dictionary of byte sequences.
pub open spec fn bytes_before(a: Seq<u8>, b: Seq<u8>) -> bool
    decreases a.len(),
{
    if b.len() == 0 {
        false
    } else if a.len() == 0 {
        true
    } else if a[0] != b[0] {
        a[0] < b[0]
    } else {
        bytes_before(a.skip(1), b.skip(1))
    }
}

/// Whether `a` comes before `b` in a dictionary, by the bytes of both.
pub open spec fn text_before(a: Seq<char>, b: Seq<char>) -> bool {
    bytes_before(encode_utf8(a), encode_utf8(b))
}

/// Whether `a` comes before `b` in a dictionary, by the bytes of both.
pub fn text_is_before(a: &str, b: &str) -> (r: bool)
    ensures
        r == text_before(a@, b@),
{
    let x = a.as_bytes();
    let y = b.as_bytes();
    let n: usize = x.len();
    let m: usize = y.len();
    let mut i: usize = 0;
    assert(x@.skip(0) =~= x@);
    assert(y@.skip(0) =~= y@);
    while i < n && i < m
        invariant
            x@ == encode_utf8(a@),
            y@ == encode_utf8(b@),
            n == x@.len(),
            m == y@.len(),
            i <= n,
            i <= m,
            text_before(a@, b@) == bytes_before(x@.skip(i as int), y@.skip(i as int)),
        decreases n - i,
    {
        assert(x@.skip(i as int)[0] == x@[i as int]);
        assert(y@.skip(i as int)[0] == y@[i as int]);
        if x[i] != y[i] {
            return x[i] < y[i];
        }
        assert(x@.skip(i as int).skip(1) =~= x@.skip(i + 1));
        assert(y@.skip(i as int).skip(1) =~= y@.skip(i + 1));
        i = i + 1;
    }
    i == n && i < m
}

/// The dictionary order, or its reverse.
pub open spec fn precedes(a: Seq<char>, b: Seq<char>, descending: bool) -> bool {
    if descending {
        text_before(b, a)
    } else {
        text_before(a, b)
    }
}

/// Where a new row goes: before the first one that it precedes.
pub open spec fn insert_point(
    keys: Seq<Seq<char>>,
    order: Seq<int>,
    row: int,
    descending: bool,
) -> int
    decreases order.len(),
{
    if order.len() == 0 || precedes(keys[row], keys[order[0]], descending) {
        0
    } else {
        1 + insert_point(keys, order.skip(1), row, descending)
    }
}

/// The rows in order of their keys; rows with the same key keep their order.
pub open spec fn sort_order(keys: Seq<Seq<char>>, descending: bool) -> Seq<int> {
    sort_first(keys, keys.len(), descending)
}

/// The first `n` rows in order of their keys.
pub open spec fn sort_first(keys: Seq<Seq<char>>, n: nat, descending: bool) -> Seq<int>
    decreases n,
{
    if n == 0 {
        Seq::empty()
    } else {
        let order = sort_first(keys, (n - 1) as nat, descending);
        order.insert(insert_point(keys, order, n - 1, descending), n - 1)
    }
}

/// The positions that a list of numbers stands for.
pub open spec fn as_ints(order: Seq<usize>) -> Seq<int> {
    Seq::new(order.len(), |i: int| order[i] as int)
}

/// The insert point lies within the list.
proof fn lemma_insert_point(keys: Seq<Seq<char>>, order: Seq<int>, row: int, descending: bool)
    ensures
        0 <= insert_point(keys, order, row, descending) <= order.len(),
        forall|i: int|
            0 <= i < insert_point(keys, order, row, descending) ==> !precedes(
                keys[row],
                keys[#[trigger] order[i]],
                descending,
            ),
        insert_point(keys, order, row, descending) < order.len() ==> precedes(
            keys[row],
            keys[order[insert_point(keys, order, row, descending)]],
            descending,
        ),
    decreases order.len(),
{
    if order.len() > 0 && !precedes(keys[row], keys[order[0]], descending) {
        lemma_insert_point(keys, order.skip(1), row, descending);
        let rest = order.skip(1);
        let p = insert_point(keys, rest, row, descending);
        assert forall|i: int| 0 <= i < p + 1 implies !precedes(
            keys[row],
            keys[#[trigger] order[i]],
            descending,
        ) by {
            if i > 0 {
                assert(order[i] == rest[i - 1]);
            }
        }
        if p + 1 < order.len() {
            assert(order[p + 1] == rest[p]);
        }
    }
}

/// A dictionary order is irreflexive, transitive and total.
proof fn lemma_bytes_before_total(a: Seq<u8>, b: Seq<u8>)
    ensures
        !(bytes_before(a, b) && bytes_before(b, a)),
        bytes_before(a, b) || bytes_before(b, a) || a == b,
        !bytes_before(a, a),
    decreases a.len(),
{
    if a.len() > 0 && b.len() > 0 && a[0] == b[0] {
        lemma_bytes_before_total(a.skip(1), b.skip(1));
        if a.skip(1) == b.skip(1) {
            assert(a =~= seq![a[0]] + a.skip(1));
            assert(b =~= seq![b[0]] + b.skip(1));
        }
    } else if a.len() > 0 {
        lemma_bytes_before_total(a.skip(1), a.skip(1));
    } else if b.len() == 0 {
        assert(a =~= b);
    }
}

/// A dictionary order is transitive.
proof fn lemma_bytes_before_transitive(a: Seq<u8>, b: Seq<u8>, c: Seq<u8>)
    requires
        bytes_before(a, b),
        bytes_before(b, c),
    ensures
        bytes_before(a, c),
    decreases a.len(),
{
    if a.len() > 0 && b.len() > 0 && c.len() > 0 && a[0] == b[0] && b[0] == c[0] {
        lemma_bytes_before_transitive(a.skip(1), b.skip(1), c.skip(1));
    }
}

/// Where `b` precedes `a` not, and `b` precedes `c`, `c` precedes `a` not.
proof fn lemma_precedes_chain(a: Seq<char>, b: Seq<char>, c: Seq<char>, descending: bool)
    requires
        !precedes(b, a, descending),
        !precedes(c, b, descending),
    ensures
        !precedes(c, a, descending),
{
    let x = encode_utf8(a);
    let y = encode_utf8(b);
    let z = encode_utf8(c);
    lemma_bytes_before_total(x, y);
    lemma_bytes_before_total(y, z);
    lemma_bytes_before_total(x, z);
    if precedes(c, a, descending) {
        if descending {
            if x == y {
            } else {
                lemma_bytes_before_transitive(x, z, y);
            }
        } else if x != y {
            lemma_bytes_before_transitive(z, x, y);
        }
    }
}

/// Whether an order lists the numbers below `n` once each, by their keys, and equal keys by number.
pub open spec fn sorted_listing(
    keys: Seq<Seq<char>>,
    n: int,
    order: Seq<int>,
    descending: bool,
) -> bool {
    &&& order.len() == n
    &&& forall|i: int| 0 <= i < n ==> 0 <= #[trigger] order[i] < n
    &&& forall|i: int, j: int| 0 <= i < j < n ==> #[trigger] order[i] != #[trigger] order[j]
    &&& forall|i: int, j: int|
        0 <= i < j < n ==> !precedes(
            keys[#[trigger] order[j]],
            keys[#[trigger] order[i]],
            descending,
        )
    &&& forall|i: int, j: int|
        0 <= i < j < n && keys[#[trigger] order[i]] == keys[#[trigger] order[j]] ==> order[i]
            < order[j]
}

/// Sorting the first rows lists them in order.
proof fn lemma_sort_first(keys: Seq<Seq<char>>, n: nat, descending: bool)
    ensures
        sorted_listing(keys, n as int, sort_first(keys, n, descending), descending),
    decreases n,
{
    if n > 0 {
        let fewer = (n - 1) as nat;
        let before = sort_first(keys, fewer, descending);
        lemma_sort_first(keys, fewer, descending);
        let row = n - 1;
        lemma_insert_point(keys, before, row, descending);
        let p = insert_point(keys, before, row, descending);
        let order = before.insert(p, row);
        assert(order == sort_first(keys, n, descending));
        assert forall|i: int| 0 <= i < n implies 0 <= #[trigger] order[i] < n by {
            if i < p {
                assert(order[i] == before[i]);
            } else if i > p {
                assert(order[i] == before[i - 1]);
            }
        }
        assert forall|i: int, j: int| 0 <= i < j < n implies #[trigger] order[i]
            != #[trigger] order[j] && !precedes(keys[order[j]], keys[order[i]], descending) && (
        keys[order[i]] == keys[order[j]] ==> order[i] < order[j]) by {
            let a = if i < p {
                i
            } else {
                i - 1
            };
            let b = if j < p {
                j
            } else {
                j - 1
            };
            if i != p && j != p {
                assert(order[i] == before[a]);
                assert(order[j] == before[b]);
            } else if j == p {
                assert(order[i] == before[i]);
                assert(order[j] == row);
            } else {
                assert(order[i] == row);
                assert(order[j] == before[j - 1]);
                let x = encode_utf8(keys[row]);
                let y = encode_utf8(keys[before[p]]);
                lemma_bytes_before_total(x, y);
                if j - 1 == p {
                    lemma_bytes_before_total(x, x);
                } else {
                    assert(!precedes(keys[before[j - 1]], keys[before[p]], descending));
                    lemma_precedes_chain(
                        keys[row],
                        keys[before[p]],
                        keys[before[j - 1]],
                        descending,
                    );
                    if keys[row] == keys[before[j - 1]] {
                        assert(precedes(keys[before[j - 1]], keys[before[p]], descending));
                    }
                }
            }
        }
    }
}

/// Sorting lists every row once, in the order of the keys, and rows with the same key in the order
/// that they had.
pub proof fn law_sort_order(keys: Seq<Seq<char>>, descending: bool)
    ensures
        sorted_listing(keys, keys.len() as int, sort_order(keys, descending), descending),
{
    lemma_sort_first(keys, keys.len(), descending);
}

/// The rows in order of their keys.
pub fn sorted_positions(keys: &Vec<String>, descending: bool) -> (order: Vec<usize>)
    ensures
        as_ints(order@) == sort_order(views(keys@), descending),
        forall|i: int| 0 <= i < order@.len() ==> (#[trigger] order@[i]) < keys@.len(),
        order@.len() == keys@.len(),
{
    let mut order: Vec<usize> = Vec::new();
    let n: usize = keys.len();
    let ghost texts = views(keys@);
    assert(as_ints(order@) =~= sort_first(texts, 0, descending));
    for row in 0..n
        invariant
            n == keys@.len(),
            texts == views(keys@),
            order@.len() == row,
            forall|i: int| 0 <= i < order@.len() ==> (#[trigger] order@[i]) < row,
            as_ints(order@) == sort_first(texts, row as nat, descending),
    {
        let ghost list = as_ints(order@);
        let mut p: usize = 0;
        let mut found: bool = false;
        assert(list.skip(0) =~= list);
        while p < order.len() && !found
            invariant
                n == keys@.len(),
                row < n,
                texts == views(keys@),
                list == as_ints(order@),
                p <= order@.len(),
                forall|i: int| 0 <= i < order@.len() ==> (#[trigger] order@[i]) < row,
                insert_point(texts, list, row as int, descending) == p + insert_point(
                    texts,
                    list.skip(p as int),
                    row as int,
                    descending,
                ),
                found ==> insert_point(texts, list.skip(p as int), row as int, descending) == 0,
            decreases
                order@.len() - p,
                if found {
                    0int
                } else {
                    1int
                },
        {
            assert(list.skip(p as int)[0] == order@[p as int] as int);
            let other: usize = order[p];
            assert(texts[other as int] == keys@[other as int]@);
            assert(texts[row as int] == keys@[row as int]@);
            let before: bool = if descending {
                text_is_before(keys[other].as_str(), keys[row].as_str())
            } else {
                text_is_before(keys[row].as_str(), keys[other].as_str())
            };
            if before {
                found = true;
            } else {
                assert(list.skip(p as int).skip(1) =~= list.skip(p + 1));
                p = p + 1;
            }
        }
        order.insert(p, row);
        assert(as_ints(order@) =~= list.insert(p as int, row as int));
    }
    order
}

/// Texts are ordered like words in a dictionary, by the bytes of their encoding: the first byte in
/// which they differ decides, and a text comes before every longer one that starts with it. No text
/// comes before itself, and of two different encodings one comes first.
pub proof fn law_dictionary_order(
    prefix: Seq<u8>,
    x: u8,
    y: u8,
    s: Seq<u8>,
    t: Seq<u8>,
    a: Seq<char>,
    b: Seq<char>,
)
    ensures
        x < y ==> bytes_before(prefix.push(x) + s, prefix.push(y) + t),
        x > y ==> !bytes_before(prefix.push(x) + s, prefix.push(y) + t),
        bytes_before(prefix, prefix.push(x) + s),
        !bytes_before(prefix, prefix),
        text_before(a, b) <==> bytes_before(encode_utf8(a), encode_utf8(b)),
        !text_before(a, a),
{
    lemma_common_prefix(prefix, seq![x] + s, seq![y] + t);
    assert(prefix + (seq![x] + s) =~= prefix.push(x) + s);
    assert(prefix + (seq![y] + t) =~= prefix.push(y) + t);
    let none = Seq::<u8>::empty();
    lemma_common_prefix(prefix, none, seq![x] + s);
    assert(prefix + none =~= prefix);
    lemma_common_prefix(prefix, none, none);
    let e = encode_utf8(a);
    lemma_common_prefix(e, none, none);
    assert(e + none =~= e);
}

/// A common start plays no part in the order.
proof fn lemma_common_prefix(prefix: Seq<u8>, s: Seq<u8>, t: Seq<u8>)
    ensures
        bytes_before(prefix + s, prefix + t) == bytes_before(s, t),
    decreases prefix.len(),
{
    if prefix.len() == 0 {
        assert(prefix + s =~= s);
        assert(prefix + t =~= t);
    } else {
        assert((prefix + s).skip(1) =~= prefix.skip(1) + s);
        assert((prefix + t).skip(1) =~= prefix.skip(1) + t);
        lemma_common_prefix(prefix.skip(1), s, t);
    }
}

} // verus!
