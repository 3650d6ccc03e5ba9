//! Text operations over sequences of characters: trimming, splitting, joining and comparing.
//!
//! A string is modelled by the sequence of its characters (`s@`), and by the UTF-8 encoding of
//! that sequence where bytes matter.

use vstd::prelude::*;
use vstd::utf8::*;

verus! {

/// `String::push` appends one character.
pub assume_specification[ String::push ](s: &mut String, c: char)
    ensures
        final(s)@ == old(s)@.push(c),
;

/// The character sets that texts are trimmed with or split at.
#[derive(Clone, Copy)]
pub enum CharClass {
    /// The characters with the Unicode property `White_Space`.
    WhiteSpace,
    /// The line feed.
    LineFeed,
    /// `;`
    Semicolon,
    /// `/`
    Slash,
    /// `.`
    Dot,
    /// `[` and `]`
    Bracket,
}

/// The Unicode property `White_Space`.
pub open spec fn is_white_space(c: char) -> bool {
    ||| '\u{9}' <= c <= '\u{d}'
    ||| c == ' '
    ||| c == '\u{85}'
    ||| c == '\u{a0}'
    ||| c == '\u{1680}'
    ||| '\u{2000}' <= c <= '\u{200a}'
    ||| c == '\u{2028}'
    ||| c == '\u{2029}'
    ||| c == '\u{202f}'
    ||| c == '\u{205f}'
    ||| c == '\u{3000}'
}

/// Whether `c` is one of the characters of `class`.
pub open spec fn in_class(c: char, class: CharClass) -> bool {
    match class {
        CharClass::WhiteSpace => is_white_space(c),
        CharClass::LineFeed => c == '\n',
        CharClass::Semicolon => c == ';',
        CharClass::Slash => c == '/',
        CharClass::Dot => c == '.',
        CharClass::Bracket => c == '[' || c == ']',
    }
}

/// `s` without its longest prefix of characters of `class`.
pub open spec fn trim_start_spec(s: Seq<char>, class: CharClass) -> Seq<char>
    decreases s.len(),
{
    if s.len() > 0 && in_class(s[0], class) {
        trim_start_spec(s.drop_first(), class)
    } else {
        s
    }
}

/// `s` without its longest suffix of characters of `class`.
pub open spec fn trim_end_spec(s: Seq<char>, class: CharClass) -> Seq<char>
    decreases s.len(),
{
    if s.len() > 0 && in_class(s.last(), class) {
        trim_end_spec(s.drop_last(), class)
    } else {
        s
    }
}

/// `s` without its leading and trailing characters of `class`.
pub open spec fn trim_class_spec(s: Seq<char>, class: CharClass) -> Seq<char> {
    trim_end_spec(trim_start_spec(s, class), class)
}

/// `s` without leading and trailing white space.
pub open spec fn trim_spec(s: Seq<char>) -> Seq<char> {
    trim_class_spec(s, CharClass::WhiteSpace)
}

/// The pieces of `s` between the characters of `class`: always at least one, and one more than
/// there are such characters.
pub open spec fn split_spec(s: Seq<char>, class: CharClass) -> Seq<Seq<char>>
    decreases s.len(),
{
    if s.len() == 0 {
        seq![Seq::<char>::empty()]
    } else {
        let before = split_spec(s.drop_last(), class);
        if in_class(s.last(), class) {
            before.push(Seq::<char>::empty())
        } else {
            before.drop_last().push(before.last().push(s.last()))
        }
    }
}

/// The views of the elements of a sequence.
pub open spec fn views<T: View>(v: Seq<T>) -> Seq<T::V> {
    Seq::new(v.len(), |i: int| v[i]@)
}

/// The non-empty texts of a list, in order.
pub open spec fn non_empty(pieces: Seq<Seq<char>>) -> Seq<Seq<char>>
    decreases pieces.len(),
{
    if pieces.len() == 0 {
        Seq::empty()
    } else {
        let before = non_empty(pieces.drop_last());
        if pieces.last().len() == 0 {
            before
        } else {
            before.push(pieces.last())
        }
    }
}

/// The maximal runs of `s` without white space.
pub open spec fn words_spec(s: Seq<char>) -> Seq<Seq<char>> {
    non_empty(split_spec(s, CharClass::WhiteSpace))
}

/// `pieces` one after the other, with `separator` between neighbours.
pub open spec fn join_spec(pieces: Seq<Seq<char>>, separator: Seq<char>) -> Seq<char>
    decreases pieces.len(),
{
    if pieces.len() == 0 {
        Seq::empty()
    } else if pieces.len() == 1 {
        pieces[0]
    } else {
        join_spec(pieces.drop_last(), separator) + separator + pieces.last()
    }
}

/// Two texts with the same UTF-8 encoding are the same text.
pub proof fn lemma_encoding_injective(a: Seq<char>, b: Seq<char>)
    requires
        encode_utf8(a) == encode_utf8(b),
    ensures
        a == b,
{
    encode_utf8_decode_utf8(a);
    encode_utf8_decode_utf8(b);
}

/// Whether two texts are the same.
pub fn text_eq(a: &str, b: &str) -> (r: bool)
    ensures
        r == (a@ == b@),
{
    let x = a.as_bytes();
    let y = b.as_bytes();
    if x.len() != y.len() {
        return false;
    }
    let n: usize = x.len();
    for i in 0..n
        invariant
            x@ == encode_utf8(a@),
            y@ == encode_utf8(b@),
            x@.len() == n,
            y@.len() == n,
            forall|j: int| 0 <= j < i ==> x@[j] == y@[j],
    {
        if x[i] != y[i] {
            return false;
        }
    }
    proof {
        assert(x@ =~= y@);
        lemma_encoding_injective(a@, b@);
    }
    true
}

/// Whether two optional texts are both absent or the same.
pub fn option_text_eq(a: &Option<String>, b: &Option<String>) -> (r: bool)
    ensures
        r == (option_view(*a) == option_view(*b)),
{
    match (a, b) {
        (Some(x), Some(y)) => text_eq(x.as_str(), y.as_str()),
        (None, None) => true,
        _ => false,
    }
}

/// The view of an optional value.
pub open spec fn option_view<T: View>(value: Option<T>) -> Option<T::V> {
    match value {
        Some(inner) => Some(inner@),
        None => None,
    }
}

/// A copy of an optional string.
pub fn option_text_copy(value: &Option<String>) -> (r: Option<String>)
    ensures
        option_view(r) == option_view(*value),
{
    match value {
        Some(text) => Some(text.clone()),
        None => None,
    }
}

/// A copy of a list of strings.
pub fn copy_texts(list: &Vec<String>) -> (copy: Vec<String>)
    ensures
        views(copy@) == views(list@),
{
    let mut copy: Vec<String> = Vec::new();
    let n: usize = list.len();
    for i in 0..n
        invariant
            n == list@.len(),
            views(copy@) == views(list@).take(i as int),
    {
        let ghost before = views(copy@);
        copy.push(list[i].clone());
        assert(views(copy@) =~= before.push(list@[i as int]@));
        assert(views(list@).take(i + 1) =~= before.push(list@[i as int]@));
    }
    assert(views(list@).take(n as int) =~= views(list@));
    copy
}

/// The optional text, or the empty text.
pub open spec fn text_or_empty(value: Option<String>) -> Seq<char> {
    match value {
        Some(text) => text@,
        None => Seq::empty(),
    }
}

/// The optional text, or the empty text.
pub fn option_text_or_empty(value: &Option<String>) -> (r: String)
    ensures
        r@ == text_or_empty(*value),
{
    match value {
        Some(text) => text.clone(),
        None => String::new(),
    }
}

/// The characters of a text.
pub fn chars_of(s: &str) -> (out: Vec<char>)
    ensures
        out@ == s@,
{
    let mut out: Vec<char> = Vec::new();
    for c in it: s.chars()
        invariant
            out@ == it.seq().take(it.index() as int),
            it.seq() == s@,
    {
        out.push(c);
    }
    out
}

/// The text of the characters from `lo` up to, not including, `hi`.
pub fn string_of(chars: &Vec<char>, lo: usize, hi: usize) -> (out: String)
    requires
        lo <= hi <= chars@.len(),
    ensures
        out@ == chars@.subrange(lo as int, hi as int),
{
    let mut out = String::new();
    for i in lo..hi
        invariant
            lo <= i <= hi <= chars@.len(),
            out@ == chars@.subrange(lo as int, i as int),
    {
        out.push(chars[i]);
    }
    out
}

/// Whether `c` is one of the characters of `class`.
pub fn class_contains(c: char, class: CharClass) -> (r: bool)
    ensures
        r == in_class(c, class),
{
    match class {
        CharClass::WhiteSpace => ('\u{9}' <= c && c <= '\u{d}') || c == ' ' || c == '\u{85}' || c
            == '\u{a0}' || c == '\u{1680}' || ('\u{2000}' <= c && c <= '\u{200a}') || c == '\u{2028}'
            || c == '\u{2029}' || c == '\u{202f}' || c == '\u{205f}' || c == '\u{3000}',
        CharClass::LineFeed => c == '\n',
        CharClass::Semicolon => c == ';',
        CharClass::Slash => c == '/',
        CharClass::Dot => c == '.',
        CharClass::Bracket => c == '[' || c == ']',
    }
}

/// `s` without its leading and trailing characters of `class`.
pub fn trim_class(s: &str, class: CharClass) -> (r: String)
    ensures
        r@ == trim_class_spec(s@, class),
{
    let chars = chars_of(s);
    let n: usize = chars.len();
    let mut lo: usize = 0;
    assert(s@.skip(0) =~= s@);
    while lo < n && class_contains(chars[lo], class)
        invariant
            chars@ == s@,
            n == s@.len(),
            lo <= n,
            trim_start_spec(s@, class) == trim_start_spec(s@.skip(lo as int), class),
        decreases n - lo,
    {
        assert(s@.skip(lo as int).drop_first() =~= s@.skip(lo + 1));
        lo = lo + 1;
    }
    let ghost head = s@.skip(lo as int);
    assert(trim_start_spec(s@, class) == head);
    let mut hi: usize = n;
    assert(head.take(hi - lo) =~= head);
    while hi > lo && class_contains(chars[hi - 1], class)
        invariant
            chars@ == s@,
            n == s@.len(),
            lo <= hi <= n,
            head == s@.skip(lo as int),
            trim_end_spec(head, class) == trim_end_spec(head.take(hi - lo), class),
        decreases hi,
    {
        assert(head.take(hi - lo).drop_last() =~= head.take(hi - 1 - lo));
        hi = hi - 1;
    }
    assert(head.take(hi - lo) =~= s@.subrange(lo as int, hi as int));
    string_of(&chars, lo, hi)
}

/// `s` without leading and trailing white space.
pub fn trim(s: &str) -> (r: String)
    ensures
        r@ == trim_spec(s@),
{
    trim_class(s, CharClass::WhiteSpace)
}

/// `s` without its trailing characters of `class`.
pub fn trim_end_class(s: &str, class: CharClass) -> (r: String)
    ensures
        r@ == trim_end_spec(s@, class),
{
    let chars = chars_of(s);
    let mut hi: usize = chars.len();
    assert(s@.take(hi as int) =~= s@);
    while hi > 0 && class_contains(chars[hi - 1], class)
        invariant
            chars@ == s@,
            hi <= s@.len(),
            trim_end_spec(s@, class) == trim_end_spec(s@.take(hi as int), class),
        decreases hi,
    {
        assert(s@.take(hi as int).drop_last() =~= s@.take(hi - 1));
        hi = hi - 1;
    }
    assert(s@.take(hi as int) =~= s@.subrange(0, hi as int));
    string_of(&chars, 0, hi)
}

/// A text that starts and ends with no white space is trimmed already.
pub proof fn lemma_trim_id(s: Seq<char>)
    requires
        s.len() > 0 ==> !is_white_space(s[0]) && !is_white_space(s.last()),
    ensures
        trim_spec(s) == s,
{
}

/// A split has at least one piece.
pub proof fn lemma_split_not_empty(s: Seq<char>, class: CharClass)
    ensures
        split_spec(s, class).len() > 0,
    decreases s.len(),
{
    if s.len() > 0 {
        lemma_split_not_empty(s.drop_last(), class);
    }
}

/// A text without a separator is split into itself.
pub proof fn lemma_split_whole(s: Seq<char>, class: CharClass)
    requires
        forall|i: int| 0 <= i < s.len() ==> !in_class(#[trigger] s[i], class),
    ensures
        split_spec(s, class) == seq![s],
    decreases s.len(),
{
    if s.len() > 0 {
        lemma_split_whole(s.drop_last(), class);
        assert(s.last() == s[s.len() - 1]);
        assert(s.drop_last().push(s.last()) =~= s);
        assert(split_spec(s, class) =~= seq![s]);
    } else {
        assert(s =~= Seq::<char>::empty());
    }
}

/// The pieces of `s` between the characters of `class`.
pub fn split(s: &str, class: CharClass) -> (pieces: Vec<String>)
    ensures
        views(pieces@) == split_spec(s@, class),
{
    let chars = chars_of(s);
    let n: usize = chars.len();
    let mut pieces: Vec<String> = Vec::new();
    let mut current = String::new();
    assert(views(pieces@).push(current@) =~= split_spec(s@.take(0), class));
    for i in 0..n
        invariant
            chars@ == s@,
            n == s@.len(),
            views(pieces@).push(current@) == split_spec(s@.take(i as int), class),
    {
        let ghost before = views(pieces@).push(current@);
        let ghost done = s@.take(i + 1);
        assert(done.drop_last() =~= s@.take(i as int));
        assert(done.last() == s@[i as int]);
        if class_contains(chars[i], class) {
            pieces.push(current);
            current = String::new();
            assert(views(pieces@) =~= before);
        } else {
            current.push(chars[i]);
            assert(before.drop_last() =~= views(pieces@));
        }
        assert(views(pieces@).push(current@) == split_spec(done, class));
    }
    assert(s@.take(n as int) =~= s@);
    let ghost all = views(pieces@).push(current@);
    pieces.push(current);
    assert(views(pieces@) =~= all);
    pieces
}

/// The non-empty strings of a list, in order.
pub fn keep_non_empty(pieces: Vec<String>) -> (kept: Vec<String>)
    ensures
        views(kept@) == non_empty(views(pieces@)),
{
    let mut kept: Vec<String> = Vec::new();
    let n: usize = pieces.len();
    assert(views(kept@) =~= non_empty(views(pieces@).take(0)));
    for i in 0..n
        invariant
            n == pieces@.len(),
            views(kept@) == non_empty(views(pieces@).take(i as int)),
    {
        let ghost done = views(pieces@).take(i + 1);
        assert(done.drop_last() =~= views(pieces@).take(i as int));
        assert(done.last() == pieces@[i as int]@);
        if !pieces[i].as_str().is_empty() {
            let ghost before = views(kept@);
            kept.push(pieces[i].clone());
            assert(views(kept@) =~= before.push(pieces@[i as int]@));
        }
    }
    assert(views(pieces@).take(n as int) =~= views(pieces@));
    kept
}

/// The maximal runs of `s` without white space.
pub fn words(s: &str) -> (r: Vec<String>)
    ensures
        views(r@) == words_spec(s@),
{
    keep_non_empty(split(s, CharClass::WhiteSpace))
}

/// `pieces` one after the other, with `separator` between neighbours.
pub fn join(pieces: &Vec<String>, separator: &str) -> (r: String)
    ensures
        r@ == join_spec(views(pieces@), separator@),
{
    let mut r = String::new();
    let n: usize = pieces.len();
    let ghost all = views(pieces@);
    for i in 0..n
        invariant
            n == pieces@.len(),
            all == views(pieces@),
            r@ == join_spec(all.take(i as int), separator@),
    {
        assert(all.take(i + 1).drop_last() =~= all.take(i as int));
        if i > 0 {
            r.append(separator);
        }
        r.append(pieces[i].as_str());
        if i == 0 {
            assert(r@ =~= all[0]);
        }
    }
    assert(all.take(n as int) =~= all);
    r
}

/// The position of the first `c`, or the length where there is none.
pub open spec fn first_of(s: Seq<char>, c: char) -> int
    decreases s.len(),
{
    if s.len() == 0 || s[0] == c {
        0
    } else {
        1 + first_of(s.skip(1), c)
    }
}

/// The position of the last `c`, or `-1` where there is none.
pub open spec fn last_of(s: Seq<char>, c: char) -> int
    decreases s.len(),
{
    if s.len() == 0 {
        -1
    } else if s.last() == c {
        s.len() - 1
    } else {
        last_of(s.drop_last(), c)
    }
}

/// The texts around the first `c`.
pub open spec fn split_once_spec(s: Seq<char>, c: char) -> Option<(Seq<char>, Seq<char>)> {
    let i = first_of(s, c);
    if i < s.len() {
        Some((s.take(i), s.skip(i + 1)))
    } else {
        None
    }
}

/// The text before the last `c`.
pub open spec fn before_last_spec(s: Seq<char>, c: char) -> Option<Seq<char>> {
    let i = last_of(s, c);
    if i >= 0 {
        Some(s.take(i))
    } else {
        None
    }
}

/// What follows a prefix.
pub open spec fn strip_prefix_spec(s: Seq<char>, prefix: Seq<char>) -> Option<Seq<char>> {
    if s.len() >= prefix.len() && s.take(prefix.len() as int) == prefix {
        Some(s.skip(prefix.len() as int))
    } else {
        None
    }
}

/// The texts around the first `c`.
pub fn split_once(s: &str, c: char) -> (r: Option<(String, String)>)
    ensures
        match r {
            Some((a, b)) => split_once_spec(s@, c) == Some((a@, b@)),
            None => split_once_spec(s@, c) is None,
        },
{
    let chars = chars_of(s);
    let n: usize = chars.len();
    let mut i: usize = 0;
    assert(s@.skip(0) =~= s@);
    while i < n && chars[i] != c
        invariant
            chars@ == s@,
            n == s@.len(),
            i <= n,
            first_of(s@, c) == i + first_of(s@.skip(i as int), c),
        decreases n - i,
    {
        assert(s@.skip(i as int).skip(1) =~= s@.skip(i + 1));
        i = i + 1;
    }
    if i < n {
        let a = string_of(&chars, 0, i);
        let b = string_of(&chars, i + 1, n);
        assert(a@ =~= s@.take(i as int));
        assert(b@ =~= s@.skip(i + 1));
        Some((a, b))
    } else {
        None
    }
}

/// The text before the last `c`.
pub fn before_last(s: &str, c: char) -> (r: Option<String>)
    ensures
        option_view(r) == before_last_spec(s@, c),
{
    let chars = chars_of(s);
    let mut i: usize = chars.len();
    assert(s@.take(i as int) =~= s@);
    while i > 0 && chars[i - 1] != c
        invariant
            chars@ == s@,
            i <= s@.len(),
            last_of(s@, c) == last_of(s@.take(i as int), c),
        decreases i,
    {
        assert(s@.take(i as int).drop_last() =~= s@.take(i - 1));
        i = i - 1;
    }
    if i > 0 {
        let a = string_of(&chars, 0, i - 1);
        assert(a@ =~= s@.take(i - 1));
        Some(a)
    } else {
        None
    }
}

/// What follows a prefix.
pub fn strip_prefix(s: &str, prefix: &str) -> (r: Option<String>)
    ensures
        option_view(r) == strip_prefix_spec(s@, prefix@),
{
    let chars = chars_of(s);
    let head = chars_of(prefix);
    let n: usize = head.len();
    if chars.len() < n {
        return None;
    }
    for i in 0..n
        invariant
            chars@ == s@,
            head@ == prefix@,
            n == prefix@.len(),
            n <= s@.len(),
            forall|j: int| 0 <= j < i ==> s@[j] == prefix@[j],
    {
        if chars[i] != head[i] {
            assert(s@.take(n as int)[i as int] != prefix@[i as int]);
            return None;
        }
    }
    let rest = string_of(&chars, n, chars.len());
    assert(s@.take(n as int) =~= prefix@);
    assert(rest@ =~= s@.skip(n as int));
    Some(rest)
}

/// `c` in lower case, where it is an ASCII letter.
pub open spec fn ascii_lower(c: char) -> char {
    if 'A' <= c <= 'Z' {
        (c as u32 + 32) as char
    } else {
        c
    }
}

/// Whether two texts differ at most in the case of ASCII letters.
pub open spec fn same_ignoring_case(a: Seq<char>, b: Seq<char>) -> bool {
    &&& a.len() == b.len()
    &&& forall|i: int| 0 <= i < a.len() ==> ascii_lower(#[trigger] a[i]) == ascii_lower(b[i])
}

/// `c` in lower case, where it is an ASCII letter.
fn to_ascii_lower(c: char) -> (r: char)
    ensures
        r == ascii_lower(c),
{
    if c >= 'A' && c <= 'Z' {
        let lower: u8 = c as u8 + 32;
        lower as char
    } else {
        c
    }
}

/// Whether two texts differ at most in the case of ASCII letters.
pub fn eq_ignore_ascii_case(a: &str, b: &str) -> (r: bool)
    ensures
        r == same_ignoring_case(a@, b@),
{
    let x = chars_of(a);
    let y = chars_of(b);
    let n: usize = x.len();
    if n != y.len() {
        return false;
    }
    for i in 0..n
        invariant
            x@ == a@,
            y@ == b@,
            n == a@.len(),
            n == b@.len(),
            forall|j: int| 0 <= j < i ==> ascii_lower(#[trigger] a@[j]) == ascii_lower(b@[j]),
    {
        if to_ascii_lower(x[i]) != to_ascii_lower(y[i]) {
            assert(ascii_lower(a@[i as int]) != ascii_lower(b@[i as int]));
            return false;
        }
    }
    true
}

/// Whether `needle` stands somewhere in `s`.
pub open spec fn contains_text(s: Seq<char>, needle: Seq<char>) -> bool {
    exists|i: int|
        0 <= i && i + needle.len() <= s.len() && #[trigger] s.subrange(i, i + needle.len())
            == needle
}

/// Whether `needle` stands somewhere in `s`.
pub fn contains(s: &str, needle: &str) -> (r: bool)
    ensures
        r == contains_text(s@, needle@),
{
    let chars = chars_of(s);
    let n: usize = chars.len();
    let m: usize = needle.unicode_len();
    if m > n {
        return false;
    }
    let last: usize = n - m;
    let mut i: usize = 0;
    while i <= last
        invariant
            chars@ == s@,
            n == s@.len(),
            m == needle@.len(),
            m <= n,
            last == n - m,
            i <= last + 1,
            forall|j: int|
                0 <= j < i ==> #[trigger] s@.subrange(j, j + needle@.len()) != needle@,
        decreases last + 1 - i,
    {
        let window = string_of(&chars, i, i + m);
        assert(window@ == s@.subrange(i as int, i + needle@.len()));
        if text_eq(window.as_str(), needle) {
            return true;
        }
        if i == last {
            return false;
        }
        i = i + 1;
    }
    false
}

/// Whether a text is another one without characters of a class at its ends: what was taken away at
/// either end is of the class, and what is left neither starts nor ends with such a character.
pub open spec fn is_trimmed(s: Seq<char>, class: CharClass, r: Seq<char>, start: int) -> bool {
    &&& 0 <= start <= start + r.len() <= s.len()
    &&& r == s.subrange(start, start + r.len())
    &&& forall|i: int| 0 <= i < start ==> in_class(#[trigger] s[i], class)
    &&& forall|i: int| start + r.len() <= i < s.len() ==> in_class(#[trigger] s[i], class)
    &&& r.len() > 0 ==> !in_class(r[0], class) && !in_class(r.last(), class)
}

/// What is left at the start.
proof fn lemma_trim_start(s: Seq<char>, class: CharClass) -> (n: int)
    ensures
        0 <= n <= s.len(),
        trim_start_spec(s, class) == s.skip(n),
        forall|i: int| 0 <= i < n ==> in_class(#[trigger] s[i], class),
        n < s.len() ==> !in_class(s[n], class),
    decreases s.len(),
{
    if s.len() > 0 && in_class(s[0], class) {
        let m = lemma_trim_start(s.drop_first(), class);
        assert(s.drop_first().skip(m) =~= s.skip(m + 1));
        assert forall|i: int| 0 <= i < m + 1 implies in_class(#[trigger] s[i], class) by {
            if i > 0 {
                assert(s.drop_first()[i - 1] == s[i]);
            }
        }
        m + 1
    } else {
        assert(s.skip(0) =~= s);
        0
    }
}

/// What is left at the end.
proof fn lemma_trim_end(s: Seq<char>, class: CharClass) -> (n: int)
    ensures
        0 <= n <= s.len(),
        trim_end_spec(s, class) == s.take(n),
        forall|i: int| n <= i < s.len() ==> in_class(#[trigger] s[i], class),
        n > 0 ==> !in_class(s[n - 1], class),
    decreases s.len(),
{
    if s.len() > 0 && in_class(s.last(), class) {
        let n = lemma_trim_end(s.drop_last(), class);
        assert(s.drop_last().take(n) =~= s.take(n));
        assert forall|i: int| n <= i < s.len() implies in_class(#[trigger] s[i], class) by {
            if i < s.len() - 1 {
                assert(s.drop_last()[i] == s[i]);
            }
        }
        n
    } else {
        assert(s.take(s.len() as int) =~= s);
        s.len() as int
    }
}

/// Trimming takes the characters of a class away at both ends, all of them, and nothing else.
pub proof fn law_trimmed_text(s: Seq<char>, class: CharClass)
    ensures
        exists|start: int| #[trigger] is_trimmed(s, class, trim_class_spec(s, class), start),
        trim_spec(s).len() > 0 ==> !is_white_space(trim_spec(s)[0]) && !is_white_space(
            trim_spec(s).last(),
        ),
{
    lemma_trimmed(s, class);
    lemma_trimmed(s, CharClass::WhiteSpace);
}

/// Trimming takes the characters of a class away at both ends.
proof fn lemma_trimmed(s: Seq<char>, class: CharClass)
    ensures
        exists|start: int| #[trigger] is_trimmed(s, class, trim_class_spec(s, class), start),
{
    let n = lemma_trim_start(s, class);
    let t = s.skip(n);
    let m = lemma_trim_end(t, class);
    let r = trim_class_spec(s, class);
    assert(r =~= s.subrange(n, n + m));
    assert forall|i: int| n + m <= i < s.len() implies in_class(#[trigger] s[i], class) by {
        assert(t[i - n] == s[i]);
    }
    assert(r.len() > 0 ==> !in_class(r.last(), class));
    if r.len() > 0 {
        assert(r[0] == t[0]);
        assert(t[0] == s[n]);
    }
    assert(is_trimmed(s, class, r, n));
}

/// Pieces joined by the character that they were split at are the text, and none of them holds such
/// a character.
pub proof fn law_split_then_join(s: Seq<char>, class: CharClass, separator: char)
    requires
        forall|c: char| in_class(c, class) <==> c == separator,
    ensures
        join_spec(split_spec(s, class), seq![separator]) == s,
        forall|i: int, j: int|
            0 <= i < split_spec(s, class).len() && 0 <= j < split_spec(s, class)[i].len()
                ==> #[trigger] split_spec(s, class)[i][j] != separator,
    decreases s.len(),
{
    let sep = seq![separator];
    if s.len() == 0 {
        assert(join_spec(split_spec(s, class), sep) =~= s);
    } else {
        law_split_then_join(s.drop_last(), class, separator);
        lemma_split_not_empty(s.drop_last(), class);
        let before = split_spec(s.drop_last(), class);
        let after = split_spec(s, class);
        assert(s =~= s.drop_last().push(s.last()));
        if in_class(s.last(), class) {
            assert(after.drop_last() =~= before);
            assert(join_spec(after, sep) =~= s);
        } else {
            assert(after.drop_last() =~= before.drop_last());
            if after.len() == 1 {
                assert(join_spec(after, sep) =~= s);
            } else {
                assert(join_spec(after, sep) =~= s);
            }
        }
    }
}

/// Splitting behind a separator: the pieces are the text before it, where that holds none, and the
/// pieces of the text behind it.
pub proof fn law_split_at_separator(
    head: Seq<char>,
    separator: char,
    tail: Seq<char>,
    class: CharClass,
)
    requires
        in_class(separator, class),
        forall|i: int| 0 <= i < head.len() ==> !in_class(#[trigger] head[i], class),
    ensures
        split_spec(head.push(separator) + tail, class) == seq![head] + split_spec(tail, class),
    decreases tail.len(),
{
    let whole = head.push(separator) + tail;
    if tail.len() == 0 {
        assert(whole =~= head.push(separator));
        assert(whole.drop_last() =~= head);
        lemma_split_whole(head, class);
        assert(split_spec(whole, class) =~= seq![head] + split_spec(tail, class));
    } else {
        let shorter = tail.drop_last();
        law_split_at_separator(head, separator, shorter, class);
        lemma_split_not_empty(shorter, class);
        assert(whole.drop_last() =~= head.push(separator) + shorter);
        assert(whole.last() == tail.last());
        let before = split_spec(shorter, class);
        let joined = seq![head] + before;
        assert(joined.last() == before.last());
        assert(joined.drop_last() =~= seq![head] + before.drop_last());
        assert(split_spec(whole, class) =~= seq![head] + split_spec(tail, class));
    }
}

/// Two texts are the same ignoring case exactly where they have the same length and agree in every
/// place, or differ there by the case of an ASCII letter; a text is always the same as itself.
pub proof fn law_same_ignoring_case(a: Seq<char>, b: Seq<char>)
    ensures
        same_ignoring_case(a, a),
        same_ignoring_case(a, b) ==> same_ignoring_case(b, a) && a.len() == b.len(),
        same_ignoring_case("server"@, "Server"@),
        same_ignoring_case("server"@, "SERVER"@),
        !same_ignoring_case("server"@, "client"@),
{
    reveal_strlit("server");
    reveal_strlit("Server");
    reveal_strlit("SERVER");
    reveal_strlit("client");
    assert(ascii_lower("server"@[0]) != ascii_lower("client"@[0]));
    if same_ignoring_case(a, b) {
        assert forall|i: int| 0 <= i < b.len() implies ascii_lower(#[trigger] b[i]) == ascii_lower(
            a[i],
        ) by {
            assert(ascii_lower(a[i]) == ascii_lower(b[i]));
        }
    }
}

} // verus!
