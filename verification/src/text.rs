//! Character-level text utilities used by the terminal client.
//!
//! Strings are reasoned about through their `Seq<char>` view; byte offsets
//! (as used by `String` indices and lengths) are related to character
//! positions through [`utf8_len`].

use vstd::prelude::*;

verus! {

// ─── UTF-8 byte lengths ─────────────────────────────────────────────────────

/// Number of bytes of the UTF-8 encoding of `c` (what `char::len_utf8` returns).
pub open spec fn char_width(c: char) -> nat {
    if (c as u32) < 0x80 {
        1
    } else if (c as u32) < 0x800 {
        2
    } else if (c as u32) < 0x10000 {
        3
    } else {
        4
    }
}

/// Number of bytes of the UTF-8 encoding of `s`.
pub open spec fn utf8_len(s: Seq<char>) -> nat
    decreases s.len(),
{
    if s.len() == 0 {
        0
    } else {
        char_width(s[0]) + utf8_len(s.drop_first())
    }
}

/// `n` is the byte offset of a character boundary of `s`.
pub open spec fn is_boundary(s: Seq<char>, n: int) -> bool {
    exists|k: int| 0 <= k <= s.len() && utf8_len(s.take(k)) == n
}

pub proof fn lemma_utf8_len_concat(a: Seq<char>, b: Seq<char>)
    ensures
        utf8_len(a + b) == utf8_len(a) + utf8_len(b),
    decreases a.len(),
{
    if a.len() == 0 {
        assert(a + b =~= b);
    } else {
        assert((a + b).drop_first() =~= a.drop_first() + b);
        lemma_utf8_len_concat(a.drop_first(), b);
    }
}

pub proof fn lemma_utf8_len_push(s: Seq<char>, c: char)
    ensures
        utf8_len(s.push(c)) == utf8_len(s) + char_width(c),
{
    lemma_utf8_len_concat(s, seq![c]);
    assert(s.push(c) =~= s + seq![c]);
    assert(seq![c].drop_first() =~= Seq::<char>::empty());
    assert(utf8_len(Seq::<char>::empty()) == 0);
    assert(utf8_len(seq![c]) == char_width(c) + utf8_len(seq![c].drop_first()));
}

/// Byte offsets grow strictly with the character index.
pub proof fn lemma_utf8_len_take_strict(s: Seq<char>, i: int, j: int)
    requires
        0 <= i < j <= s.len(),
    ensures
        utf8_len(s.take(i)) < utf8_len(s.take(j)),
        utf8_len(s.take(j)) <= utf8_len(s),
{
    lemma_utf8_len_concat(s.take(i), s.subrange(i, j));
    assert(s.take(i) + s.subrange(i, j) =~= s.take(j));
    lemma_utf8_len_concat(s.take(j), s.skip(j));
    assert(s.take(j) + s.skip(j) =~= s);
}

pub proof fn lemma_utf8_len_take_le(s: Seq<char>, i: int)
    requires
        0 <= i <= s.len(),
    ensures
        utf8_len(s.take(i)) <= utf8_len(s),
{
    lemma_utf8_len_concat(s.take(i), s.skip(i));
    assert(s.take(i) + s.skip(i) =~= s);
}

/// The character index of a boundary is unique.
pub proof fn lemma_boundary_index_unique(s: Seq<char>, i: int, j: int)
    requires
        0 <= i <= s.len(),
        0 <= j <= s.len(),
        utf8_len(s.take(i)) == utf8_len(s.take(j)),
    ensures
        i == j,
{
    if i < j {
        lemma_utf8_len_take_strict(s, i, j);
    } else if j < i {
        lemma_utf8_len_take_strict(s, j, i);
    }
}

/// The character index at byte offset `n` of `s` (meaningful when `is_boundary(s, n)`).
pub open spec fn char_index_of(s: Seq<char>, n: int) -> int {
    choose|k: int| 0 <= k <= s.len() && utf8_len(s.take(k)) == n
}

/// Byte length of `c` in UTF-8, as `char::len_utf8` computes it.
pub fn char_len_utf8(c: char) -> (n: usize)
    ensures
        n == char_width(c),
{
    let v: u32 = c as u32;
    if v < 0x80 {
        1
    } else if v < 0x800 {
        2
    } else if v < 0x10000 {
        3
    } else {
        4
    }
}

// ─── String construction ────────────────────────────────────────────────────

/// Appends one character to a string (`String::push`).
///
/// Every call that returns leaves a string of at most `isize::MAX` bytes:
/// `String::push` panics on capacity overflow beyond that size, a limit of
/// the machine's address space that this contract leaves unsaid.
#[verifier::external_body]
pub(crate) fn push_char(s: &mut String, c: char)
    ensures
        final(s)@ == old(s)@.push(c),
        utf8_len(final(s)@) <= isize::MAX,
{
    s.push(c);
}

/// The characters of `s`, in order.
pub fn chars_of(s: &str) -> (v: Vec<char>)
    ensures
        v@ == s@,
{
    let mut v: Vec<char> = Vec::new();
    for c in it: s.chars()
        invariant
            v@ == it.seq().take(it.index() as int),
            it.seq() == s@,
    {
        v.push(c);
    }
    v
}

/// Builds a string from the characters `v[from..to]`.
pub fn string_from_range(v: &Vec<char>, from: usize, to: usize) -> (s: String)
    requires
        from <= to <= v.len(),
    ensures
        s@ == v@.subrange(from as int, to as int),
        to > from ==> utf8_len(s@) <= isize::MAX,
{
    let mut s = String::new();
    let mut i: usize = from;
    while i < to
        invariant
            from <= i <= to <= v.len(),
            s@ == v@.subrange(from as int, i as int),
            i > from ==> utf8_len(s@) <= isize::MAX,
        decreases to - i,
    {
        push_char(&mut s, v[i]);
        assert(v@.subrange(from as int, i + 1) =~= v@.subrange(from as int, i as int).push(v@[i as int]));
        i = i + 1;
    }
    s
}

/// Builds a string holding the characters of `v`.
pub fn string_from_chars(v: &Vec<char>) -> (s: String)
    ensures
        s@ == v@,
        v.len() > 0 ==> utf8_len(s@) <= isize::MAX,
{
    let s = string_from_range(v, 0, v.len());
    assert(v@.subrange(0, v.len() as int) =~= v@);
    s
}

/// Removes the last character of `s` and returns it (`String::pop`).
pub fn pop_char(s: &mut String) -> (r: Option<char>)
    ensures
        old(s)@.len() > 0 ==> final(s)@ == old(s)@.drop_last() && r == Some(old(s)@.last()),
        old(s)@.len() == 0 ==> final(s)@ == old(s)@ && r is None,
{
    let v = chars_of(s.as_str());
    if v.len() == 0 {
        return None;
    }
    let c = v[v.len() - 1];
    *s = string_from_range(&v, 0, v.len() - 1);
    assert(v@.subrange(0, v.len() - 1) =~= v@.drop_last());
    Some(c)
}

/// A fresh copy of `s`.
pub fn copy_str(s: &str) -> (r: String)
    ensures
        r@ == s@,
        utf8_len(r@) <= isize::MAX,
{
    let v = chars_of(s);
    if v.len() == 0 {
        proof { assert(utf8_len(v@) == 0); }
    }
    string_from_chars(&v)
}

/// Byte length of the UTF-8 encoding of `v` (what `str::len` gives for the same text).
pub fn byte_len(v: &Vec<char>) -> (n: usize)
    requires
        utf8_len(v@) <= usize::MAX,
    ensures
        n == utf8_len(v@),
{
    let mut n: usize = 0;
    let mut i: usize = 0;
    while i < v.len()
        invariant
            0 <= i <= v.len(),
            utf8_len(v@) <= usize::MAX,
            n == utf8_len(v@.take(i as int)),
        decreases v.len() - i,
    {
        proof {
            lemma_utf8_len_push(v@.take(i as int), v@[i as int]);
            assert(v@.take(i + 1) =~= v@.take(i as int).push(v@[i as int]));
            lemma_utf8_len_take_le(v@, i + 1);
        }
        n = n + char_len_utf8(v[i]);
        i = i + 1;
    }
    assert(v@.take(v.len() as int) =~= v@);
    n
}

/// Byte length of the text of `s`.
pub fn str_byte_len(s: &String) -> (n: usize)
    requires
        utf8_len(s@) <= usize::MAX,
    ensures
        n == utf8_len(s@),
{
    let v = chars_of(s.as_str());
    byte_len(&v)
}

/// Character index of byte offset `n` in `v`, if `n` is a character boundary.
pub fn char_index_at(v: &Vec<char>, n: usize) -> (r: Option<usize>)
    ensures
        r is Some <==> is_boundary(v@, n as int),
        r matches Some(k) ==> k <= v.len() && utf8_len(v@.take(k as int)) == n
            && k == char_index_of(v@, n as int),
{
    let mut acc: usize = 0;
    let mut k: usize = 0;
    while k < v.len() && acc < n
        invariant
            0 <= k <= v.len(),
            acc == utf8_len(v@.take(k as int)),
            acc <= n,
            forall|j: int| 0 <= j < k ==> utf8_len(#[trigger] v@.take(j)) < n,
        decreases v.len() - k,
    {
        proof {
            lemma_utf8_len_push(v@.take(k as int), v@[k as int]);
            assert(v@.take(k + 1) =~= v@.take(k as int).push(v@[k as int]));
        }
        let w = char_len_utf8(v[k]);
        if w > n - acc {
            // the next boundary jumps over `n`
            proof {
                assert forall|j: int| 0 <= j <= v.len() implies utf8_len(#[trigger] v@.take(j)) != n by {
                    if j > k + 1 {
                        lemma_utf8_len_take_strict(v@, k + 1, j);
                    }
                }
            }
            return None;
        }
        acc = acc + w;
        k = k + 1;
    }
    if acc == n {
        proof {
            assert forall|j: int| 0 <= j <= v.len() && utf8_len(#[trigger] v@.take(j)) == n implies j == k by {
                lemma_boundary_index_unique(v@, j, k as int);
            }
        }
        Some(k)
    } else {
        proof {
            assert forall|j: int| 0 <= j <= v.len() implies utf8_len(#[trigger] v@.take(j)) != n by {
                if j > k {
                    lemma_utf8_len_take_le(v@, j);
                    assert(k == v.len());
                }
            }
        }
        None
    }
}

/// `a` followed by `b`.
pub fn concat2(a: &str, b: &str) -> (r: String)
    ensures
        r@ == a@ + b@,
{
    let mut r = copy_str(a);
    let v = chars_of(b);
    let mut i: usize = 0;
    while i < v.len()
        invariant
            0 <= i <= v.len(),
            v@ == b@,
            r@ == a@ + b@.take(i as int),
        decreases v.len() - i,
    {
        push_char(&mut r, v[i]);
        assert(b@.take(i + 1) =~= b@.take(i as int).push(b@[i as int]));
        assert(a@ + b@.take(i + 1) =~= (a@ + b@.take(i as int)).push(b@[i as int]));
        i = i + 1;
    }
    assert(b@.take(v.len() as int) =~= b@);
    r
}

/// `a`, `b` and `c` one after the other.
pub fn concat3(a: &str, b: &str, c: &str) -> (r: String)
    ensures
        r@ == a@ + b@ + c@,
{
    let ab = concat2(a, b);
    concat2(ab.as_str(), c)
}

/// `a`, `b`, `c`, `d` and `e` one after the other.
pub fn concat5(a: &str, b: &str, c: &str, d: &str, e: &str) -> (r: String)
    ensures
        r@ == a@ + b@ + c@ + d@ + e@,
{
    let abc = concat3(a, b, c);
    concat3(abc.as_str(), d, e)
}

/// Equality of the characters of two strings.
pub fn str_eq(a: &str, b: &str) -> (r: bool)
    ensures
        r == (a@ == b@),
{
    let va = chars_of(a);
    let vb = chars_of(b);
    seq_eq(&va, &vb)
}

/// Equality of two character vectors.
pub fn seq_eq(a: &Vec<char>, b: &Vec<char>) -> (r: bool)
    ensures
        r == (a@ == b@),
{
    if a.len() != b.len() {
        return false;
    }
    let mut i: usize = 0;
    while i < a.len()
        invariant
            a.len() == b.len(),
            0 <= i <= a.len(),
            forall|j: int| 0 <= j < i ==> a@[j] == b@[j],
        decreases a.len() - i,
    {
        if a[i] != b[i] {
            return false;
        }
        i = i + 1;
    }
    assert(a@ =~= b@);
    true
}

// ─── Whitespace and trimming ────────────────────────────────────────────────

/// Unicode `White_Space` characters (what `char::is_whitespace` accepts).
pub open spec fn is_ws(c: char) -> bool {
    let v = c as u32;
    ||| 0x09 <= v <= 0x0D
    ||| v == 0x20
    ||| v == 0x85
    ||| v == 0xA0
    ||| v == 0x1680
    ||| 0x2000 <= v <= 0x200A
    ||| v == 0x2028
    ||| v == 0x2029
    ||| v == 0x202F
    ||| v == 0x205F
    ||| v == 0x3000
}

/// Whether `c` is Unicode whitespace.
pub fn is_whitespace(c: char) -> (r: bool)
    ensures
        r == is_ws(c),
{
    let v: u32 = c as u32;
    (0x09 <= v && v <= 0x0D) || v == 0x20 || v == 0x85 || v == 0xA0 || v == 0x1680 || (0x2000
        <= v && v <= 0x200A) || v == 0x2028 || v == 0x2029 || v == 0x202F || v == 0x205F || v
        == 0x3000
}

/// `s` holds a whitespace character.
pub open spec fn has_ws(s: Seq<char>) -> bool {
    exists|i: int| 0 <= i < s.len() && is_ws(s[i])
}

/// Index of the first non-whitespace character at or after `i` (or `s.len()`).
pub open spec fn skip_ws_from(s: Seq<char>, i: int) -> int
    decreases s.len() - i,
{
    if i < 0 || i >= s.len() {
        if i < 0 { 0 } else { s.len() as int }
    } else if is_ws(s[i]) {
        skip_ws_from(s, i + 1)
    } else {
        i
    }
}

/// One past the index of the last non-whitespace character before `j` (or 0).
pub open spec fn trim_end_from(s: Seq<char>, j: int) -> int
    decreases j,
{
    if j <= 0 {
        0
    } else if j > s.len() {
        trim_end_from(s, s.len() as int)
    } else if is_ws(s[j - 1]) {
        trim_end_from(s, j - 1)
    } else {
        j
    }
}

/// `s` without leading whitespace (`str::trim_start`).
pub open spec fn trim_start(s: Seq<char>) -> Seq<char> {
    s.skip(skip_ws_from(s, 0))
}

/// `s` without trailing whitespace (`str::trim_end`).
pub open spec fn trim_end(s: Seq<char>) -> Seq<char> {
    s.take(trim_end_from(s, s.len() as int))
}

/// `s` without leading and trailing whitespace (`str::trim`).
pub open spec fn trim(s: Seq<char>) -> Seq<char> {
    trim_end(trim_start(s))
}

pub proof fn lemma_skip_ws_from_bounds(s: Seq<char>, i: int)
    requires
        0 <= i <= s.len(),
    ensures
        i <= skip_ws_from(s, i) <= s.len(),
        forall|k: int| i <= k < skip_ws_from(s, i) ==> is_ws(#[trigger] s[k]),
        skip_ws_from(s, i) < s.len() ==> !is_ws(s[skip_ws_from(s, i)]),
    decreases s.len() - i,
{
    if i < s.len() && is_ws(s[i]) {
        lemma_skip_ws_from_bounds(s, i + 1);
    }
}

pub proof fn lemma_trim_end_from_bounds(s: Seq<char>, j: int)
    requires
        0 <= j <= s.len(),
    ensures
        0 <= trim_end_from(s, j) <= j,
        forall|k: int| trim_end_from(s, j) <= k < j ==> is_ws(#[trigger] s[k]),
        trim_end_from(s, j) > 0 ==> !is_ws(s[trim_end_from(s, j) - 1]),
    decreases j,
{
    if j > 0 && is_ws(s[j - 1]) {
        lemma_trim_end_from_bounds(s, j - 1);
    }
}

/// Index of the first non-whitespace character of `v` at or after `i`.
pub fn skip_whitespace(v: &Vec<char>, i: usize) -> (r: usize)
    requires
        i <= v.len(),
    ensures
        r == skip_ws_from(v@, i as int),
        i <= r <= v.len(),
    decreases v.len() - i,
{
    if i < v.len() && is_whitespace(v[i]) {
        skip_whitespace(v, i + 1)
    } else {
        i
    }
}

/// One past the last non-whitespace character of `v` before `j`.
pub fn trim_end_index(v: &Vec<char>, j: usize) -> (r: usize)
    requires
        j <= v.len(),
    ensures
        r == trim_end_from(v@, j as int),
        r <= j,
    decreases j,
{
    if j > 0 && is_whitespace(v[j - 1]) {
        trim_end_index(v, j - 1)
    } else {
        j
    }
}

/// `s` with leading and trailing whitespace removed (`str::trim`).
pub fn trim_str(s: &str) -> (r: String)
    ensures
        r@ == trim(s@),
{
    let v = chars_of(s);
    let start = skip_whitespace(&v, 0);
    let ghost tail = v@.skip(start as int);
    proof { lemma_skip_ws_from_bounds(v@, 0); }
    // trailing whitespace of the tail, as indices into `v`
    let end = trim_end_index(&v, v.len());
    proof {
        lemma_trim_end_from_bounds(v@, v.len() as int);
        lemma_trim_end_from_bounds(tail, tail.len() as int);
        lemma_trim_end_shift(v@, start as int);
    }
    if end <= start {
        proof {
            assert(trim_end_from(tail, tail.len() as int) == 0);
            assert(trim(s@) =~= Seq::<char>::empty());
        }
        return String::new();
    }
    let r = string_from_range(&v, start, end);
    proof {
        assert(trim(s@) =~= v@.subrange(start as int, end as int));
    }
    r
}

/// Trailing-whitespace cut of a suffix, in indices of the whole sequence.
pub proof fn lemma_trim_end_shift(s: Seq<char>, start: int)
    requires
        0 <= start <= s.len(),
        start == skip_ws_from(s, 0),
    ensures
        ({
            let tail = s.skip(start);
            let e = trim_end_from(s, s.len() as int);
            &&& e <= start ==> trim_end_from(tail, tail.len() as int) == 0
            &&& e > start ==> trim_end_from(tail, tail.len() as int) == e - start
        }),
{
    let tail = s.skip(start);
    lemma_skip_ws_from_bounds(s, 0);
    lemma_trim_end_from_bounds(s, s.len() as int);
    lemma_trim_end_from_bounds(tail, tail.len() as int);
    let e = trim_end_from(s, s.len() as int);
    let t = trim_end_from(tail, tail.len() as int);
    // both cut points are characterised by "everything after is whitespace,
    // the character before is not"
    if t > 0 {
        assert(!is_ws(s[start + t - 1]));
        if e < start + t {
            assert(is_ws(s[start + t - 1]));
        }
        if e > start + t {
            assert(is_ws(tail[e - 1 - start]));
        }
    } else {
        if e > start {
            assert(is_ws(tail[e - 1 - start]));
            assert(!is_ws(s[e - 1]));
        }
    }
}

/// Whether `s` holds whitespace anywhere.
pub fn contains_whitespace(s: &str) -> (r: bool)
    ensures
        r == has_ws(s@),
{
    let v = chars_of(s);
    let mut i: usize = 0;
    while i < v.len()
        invariant
            0 <= i <= v.len(),
            v@ == s@,
            forall|j: int| 0 <= j < i ==> !is_ws(v@[j]),
        decreases v.len() - i,
    {
        if is_whitespace(v[i]) {
            return true;
        }
        i = i + 1;
    }
    false
}

/// `s` is empty after trimming.
pub fn is_blank(s: &str) -> (r: bool)
    ensures
        r == (trim(s@).len() == 0),
{
    let t = trim_str(s);
    t.as_str().is_empty()
}


// ─── Case mapping ───────────────────────────────────────────────────────────

/// ASCII lowercase mapping of one character (`char::to_ascii_lowercase`).
pub open spec fn ascii_lower(c: char) -> char {
    if 'A' <= c && c <= 'Z' {
        ((c as u32) + 32) as char
    } else {
        c
    }
}

/// ASCII lowercase mapping of a text (`str::to_ascii_lowercase`).
pub open spec fn ascii_lower_seq(s: Seq<char>) -> Seq<char> {
    Seq::new(s.len(), |i: int| ascii_lower(s[i]))
}

/// Lowercases one ASCII letter, leaving other characters alone.
pub fn to_ascii_lower(c: char) -> (r: char)
    ensures
        r == ascii_lower(c),
{
    if 'A' <= c && c <= 'Z' {
        let v: u32 = (c as u32) + 32;
        proof {
            assert(v < 0xD800);
        }
        char_from_small(v)
    } else {
        c
    }
}

/// The `char` with the given scalar value below `0xD800`.
#[verifier::external_body]
fn char_from_small(v: u32) -> (c: char)
    requires
        v < 0xD800,
    ensures
        c == v as char,
{
    char::from_u32(v).unwrap()
}

/// `s` with every ASCII letter lowercased (`str::to_ascii_lowercase`).
pub fn ascii_lowercase(s: &str) -> (r: String)
    ensures
        r@ == ascii_lower_seq(s@),
{
    let v = chars_of(s);
    let mut out: Vec<char> = Vec::new();
    let mut i: usize = 0;
    while i < v.len()
        invariant
            0 <= i <= v.len(),
            v@ == s@,
            out@ == ascii_lower_seq(s@).take(i as int),
        decreases v.len() - i,
    {
        out.push(to_ascii_lower(v[i]));
        assert(ascii_lower_seq(s@).take(i + 1) =~= ascii_lower_seq(s@).take(i as int).push(
            ascii_lower(s@[i as int]),
        ));
        i = i + 1;
    }
    assert(ascii_lower_seq(s@).take(v.len() as int) =~= ascii_lower_seq(s@));
    string_from_chars(&out)
}

/// Unicode lowercase mapping of a text, as `str::to_lowercase` computes it.
pub uninterp spec fn lowercase(s: Seq<char>) -> Seq<char>;

/// `str::to_lowercase`: the Unicode lowercase mapping of `s`.
///
/// The mapping itself (Unicode case tables, context-dependent final sigma)
/// is named by [`lowercase`] and not restated here.
#[verifier::external_body]
pub(crate) fn to_lowercase(s: &str) -> (r: String)
    ensures
        r@ == lowercase(s@),
{
    s.to_lowercase()
}

// ─── Prefixes and substrings ────────────────────────────────────────────────

/// `p` is a prefix of `s` (`str::starts_with`).
pub open spec fn has_prefix(s: Seq<char>, p: Seq<char>) -> bool {
    p.len() <= s.len() && s.take(p.len() as int) == p
}

/// `q` occurs in `s` at position `i`.
pub open spec fn occurs_at(s: Seq<char>, q: Seq<char>, i: int) -> bool {
    0 <= i && i + q.len() <= s.len() && s.subrange(i, i + q.len()) == q
}

/// `q` occurs somewhere in `s` (`str::contains`).
pub open spec fn contains_seq(s: Seq<char>, q: Seq<char>) -> bool {
    exists|i: int| occurs_at(s, q, i)
}

/// Whether `s` starts with `p`.
pub fn starts_with(s: &str, p: &str) -> (r: bool)
    ensures
        r == has_prefix(s@, p@),
{
    let vs = chars_of(s);
    let vp = chars_of(p);
    if vp.len() > vs.len() {
        return false;
    }
    let mut i: usize = 0;
    while i < vp.len()
        invariant
            vp.len() <= vs.len(),
            0 <= i <= vp.len(),
            vs@ == s@,
            vp@ == p@,
            forall|j: int| 0 <= j < i ==> vs@[j] == vp@[j],
        decreases vp.len() - i,
    {
        if vs[i] != vp[i] {
            return false;
        }
        i = i + 1;
    }
    assert(s@.take(p@.len() as int) =~= p@);
    true
}

/// Whether `q` matches `v` at position `i`.
fn matches_at(v: &Vec<char>, q: &Vec<char>, i: usize) -> (r: bool)
    requires
        i + q.len() <= v.len(),
    ensures
        r == occurs_at(v@, q@, i as int),
{
    let mut j: usize = 0;
    while j < q.len()
        invariant
            i + q.len() <= v.len(),
            0 <= j <= q.len(),
            forall|k: int| 0 <= k < j ==> v@[i + k] == q@[k],
        decreases q.len() - j,
    {
        if v[i + j] != q[j] {
            assert(v@.subrange(i as int, i + q.len())[j as int] != q@[j as int]);
            return false;
        }
        j = j + 1;
    }
    assert(v@.subrange(i as int, i + q.len()) =~= q@);
    true
}

/// Whether `q` occurs in `s`.
pub fn contains_str(s: &str, q: &str) -> (r: bool)
    ensures
        r == contains_seq(s@, q@),
{
    let v = chars_of(s);
    let w = chars_of(q);
    if w.len() > v.len() {
        return false;
    }
    let mut i: usize = 0;
    let last: usize = v.len() - w.len();
    loop
        invariant
            w.len() <= v.len(),
            last == v.len() - w.len(),
            v@ == s@,
            w@ == q@,
            0 <= i <= last,
            forall|k: int| 0 <= k < i ==> !occurs_at(s@, q@, k),
        ensures
            forall|k: int| 0 <= k <= last ==> !occurs_at(s@, q@, k),
        decreases last - i,
    {
        if matches_at(&v, &w, i) {
            return true;
        }
        if i == last {
            break;
        }
        i = i + 1;
    }
    assert forall|k: int| !occurs_at(s@, q@, k) by {
        if k > last {
        }
    }
    false
}

// ─── Lines and words ────────────────────────────────────────────────────────

/// Index of the first `'\n'` in `s` at or after `i` (or `s.len()`).
pub open spec fn newline_from(s: Seq<char>, i: int) -> int
    decreases s.len() - i,
{
    if i < 0 {
        newline_from(s, 0)
    } else if i >= s.len() {
        s.len() as int
    } else if s[i] == '\n' {
        i
    } else {
        newline_from(s, i + 1)
    }
}

/// The first line of `s`, as `str::lines().next()` yields it for a non-empty
/// `s`: the text before the first `'\n'`, without a `'\r'` right before it.
pub open spec fn first_line(s: Seq<char>) -> Seq<char> {
    let n = newline_from(s, 0);
    if n < s.len() && n > 0 && s[n - 1] == '\r' {
        s.take(n - 1)
    } else {
        s.take(n)
    }
}

pub proof fn lemma_newline_from_bounds(s: Seq<char>, i: int)
    requires
        0 <= i <= s.len(),
    ensures
        i <= newline_from(s, i) <= s.len(),
        forall|k: int| i <= k < newline_from(s, i) ==> #[trigger] s[k] != '\n',
        newline_from(s, i) < s.len() ==> s[newline_from(s, i)] == '\n',
    decreases s.len() - i,
{
    if i < s.len() && s[i] != '\n' {
        lemma_newline_from_bounds(s, i + 1);
    }
}

/// Index of the first `'\n'` of `v` at or after `i`.
fn find_newline(v: &Vec<char>, i: usize) -> (r: usize)
    requires
        i <= v.len(),
    ensures
        r == newline_from(v@, i as int),
    decreases v.len() - i,
{
    if i >= v.len() {
        i
    } else if v[i] == '\n' {
        i
    } else {
        find_newline(v, i + 1)
    }
}

/// The first line of `s` (see [`first_line`]).
pub fn first_line_of(s: &str) -> (r: String)
    ensures
        r@ == first_line(s@),
{
    let v = chars_of(s);
    let n = find_newline(&v, 0);
    proof { lemma_newline_from_bounds(v@, 0); }
    if n < v.len() && n > 0 && v[n - 1] == '\r' {
        let r = string_from_range(&v, 0, n - 1);
        assert(v@.subrange(0, n - 1) =~= v@.take(n - 1));
        r
    } else {
        let r = string_from_range(&v, 0, n);
        assert(v@.subrange(0, n as int) =~= v@.take(n as int));
        r
    }
}

/// Index of the first whitespace character of `s` at or after `i` (or `s.len()`).
pub open spec fn word_end_from(s: Seq<char>, i: int) -> int
    decreases s.len() - i,
{
    if i < 0 {
        word_end_from(s, 0)
    } else if i >= s.len() {
        s.len() as int
    } else if is_ws(s[i]) {
        i
    } else {
        word_end_from(s, i + 1)
    }
}

pub proof fn lemma_word_end_from_bounds(s: Seq<char>, i: int)
    requires
        0 <= i <= s.len(),
    ensures
        i <= word_end_from(s, i) <= s.len(),
        forall|k: int| i <= k < word_end_from(s, i) ==> !is_ws(#[trigger] s[k]),
        word_end_from(s, i) < s.len() ==> is_ws(s[word_end_from(s, i)]),
    decreases s.len() - i,
{
    if i < s.len() && !is_ws(s[i]) {
        lemma_word_end_from_bounds(s, i + 1);
    }
}

/// The whitespace-separated words of `s[i..]` (`str::split_whitespace`).
pub open spec fn words_from(s: Seq<char>, i: int) -> Seq<Seq<char>>
    decreases s.len() - i,
{
    if i < 0 || i >= s.len() {
        Seq::empty()
    } else {
        let a = skip_ws_from(s, i);
        if a >= s.len() {
            Seq::empty()
        } else {
            let b = word_end_from(s, a);
            proof {
                lemma_skip_ws_from_bounds(s, i);
                lemma_word_end_from_bounds(s, a);
            }
            if b <= i {
                Seq::empty()
            } else {
                seq![s.subrange(a, b)] + words_from(s, b)
            }
        }
    }
}

/// The whitespace-separated words of `s` (`str::split_whitespace`).
pub open spec fn words(s: Seq<char>) -> Seq<Seq<char>> {
    words_from(s, 0)
}

/// The texts held by a sequence of strings.
pub open spec fn string_views(v: Seq<String>) -> Seq<Seq<char>> {
    Seq::new(v.len(), |i: int| v[i]@)
}

/// Appends the words of `v[i..]` to `acc`.
fn collect_words(v: &Vec<char>, i: usize, acc: &mut Vec<String>)
    requires
        i <= v.len(),
    ensures
        string_views(final(acc)@) == string_views(old(acc)@) + words_from(v@, i as int),
    decreases v.len() - i,
{
    if i >= v.len() {
        assert(string_views(acc@) =~= string_views(acc@) + Seq::<Seq<char>>::empty());
        return;
    }
    let a = skip_whitespace(v, i);
    if a >= v.len() {
        assert(string_views(acc@) =~= string_views(acc@) + Seq::<Seq<char>>::empty());
        return;
    }
    let b = word_end(v, a);
    proof { lemma_word_end_from_bounds(v@, a as int); lemma_skip_ws_from_bounds(v@, i as int); }
    if b <= i {
        assert(string_views(acc@) =~= string_views(acc@) + Seq::<Seq<char>>::empty());
        return;
    }
    let w = string_from_range(v, a, b);
    let ghost before = string_views(acc@);
    acc.push(w);
    assert(string_views(acc@) =~= before.push(v@.subrange(a as int, b as int)));
    collect_words(v, b, acc);
    assert(before.push(v@.subrange(a as int, b as int)) + words_from(v@, b as int) =~= before + (
    seq![v@.subrange(a as int, b as int)] + words_from(v@, b as int)));
}

/// Index of the first whitespace character of `v` at or after `i`.
fn word_end(v: &Vec<char>, i: usize) -> (r: usize)
    requires
        i <= v.len(),
    ensures
        r == word_end_from(v@, i as int),
    decreases v.len() - i,
{
    if i >= v.len() {
        i
    } else if is_whitespace(v[i]) {
        i
    } else {
        word_end(v, i + 1)
    }
}

/// The whitespace-separated words of `s`.
pub fn split_words(s: &str) -> (r: Vec<String>)
    ensures
        string_views(r@) == words(s@),
{
    let v = chars_of(s);
    let mut acc: Vec<String> = Vec::new();
    collect_words(&v, 0, &mut acc);
    assert(string_views(Seq::<String>::empty()) =~= Seq::<Seq<char>>::empty());
    assert(Seq::<Seq<char>>::empty() + words(s@) =~= words(s@));
    acc
}

/// The texts of `ws` joined with `sep` between neighbours (`[T]::join`).
pub open spec fn join(ws: Seq<Seq<char>>, sep: Seq<char>) -> Seq<char>
    decreases ws.len(),
{
    if ws.len() == 0 {
        Seq::empty()
    } else if ws.len() == 1 {
        ws[0]
    } else {
        join(ws.drop_last(), sep) + sep + ws.last()
    }
}

/// Joins `ws[from..]` with `sep` between neighbours.
pub fn join_from(ws: &Vec<String>, from: usize, sep: &str) -> (r: String)
    requires
        from <= ws.len(),
    ensures
        r@ == join(string_views(ws@).skip(from as int), sep@),
{
    let mut r = String::new();
    let mut i: usize = from;
    let ghost all = string_views(ws@).skip(from as int);
    while i < ws.len()
        invariant
            from <= i <= ws.len(),
            all == string_views(ws@).skip(from as int),
            r@ == join(all.take(i - from), sep@),
        decreases ws.len() - i,
    {
        let ghost prev = all.take(i - from);
        assert(all.take(i - from + 1).drop_last() =~= prev);
        assert(all.take(i - from + 1).last() == ws@[i as int]@);
        if i == from {
            r = copy_str(ws[i].as_str());
            assert(all.take(1) =~= seq![ws@[i as int]@]);
        } else {
            r = concat3(r.as_str(), sep, ws[i].as_str());
        }
        i = i + 1;
    }
    assert(all.take(ws.len() - from) =~= all);
    r
}


// ─── Decimal numbers ────────────────────────────────────────────────────────

/// The ASCII digit for `d < 10`.
pub open spec fn digit_char(d: nat) -> char {
    ((d + 48) as u32) as char
}

/// Decimal text of `n` (what `to_string` gives for an unsigned integer).
pub open spec fn decimal(n: nat) -> Seq<char>
    decreases n,
{
    if n < 10 {
        seq![digit_char(n)]
    } else {
        decimal(n / 10).push(digit_char(n % 10))
    }
}

/// The character of digit `d`.
fn digit_to_char(d: u64) -> (c: char)
    requires
        d < 10,
    ensures
        c == digit_char(d as nat),
{
    char_from_small((d + 48) as u32)
}

/// Decimal text of `n` (`u64::to_string`).
pub fn u64_to_string(n: u64) -> (s: String)
    ensures
        s@ == decimal(n as nat),
    decreases n,
{
    if n < 10 {
        let mut s = String::new();
        push_char(&mut s, digit_to_char(n));
        s
    } else {
        let mut s = u64_to_string(n / 10);
        push_char(&mut s, digit_to_char(n % 10));
        s
    }
}

/// All characters of `s` are ASCII digits.
pub open spec fn all_digits(s: Seq<char>) -> bool {
    forall|i: int| 0 <= i < s.len() ==> '0' <= #[trigger] s[i] && s[i] <= '9'
}

/// Numeric value of a run of ASCII digits.
pub open spec fn digits_value(s: Seq<char>) -> nat
    decreases s.len(),
{
    if s.len() == 0 {
        0
    } else {
        digits_value(s.drop_last()) * 10 + ((s.last() as u32) - 48) as nat
    }
}

/// What `str::parse::<u16>` accepts: an optional `+`, then one or more ASCII
/// digits whose value fits in 16 bits.
pub open spec fn parse_u16(s: Seq<char>) -> Option<u16> {
    let d = if s.len() > 0 && s[0] == '+' {
        s.drop_first()
    } else {
        s
    };
    if d.len() == 0 || !all_digits(d) || digits_value(d) > 0xFFFF {
        None
    } else {
        Some(digits_value(d) as u16)
    }
}

proof fn lemma_digits_value_mono(s: Seq<char>, i: int)
    requires
        0 <= i <= s.len(),
        all_digits(s),
    ensures
        digits_value(s.take(i)) <= digits_value(s),
    decreases s.len() - i,
{
    if i < s.len() {
        lemma_digits_value_mono(s, i + 1);
        assert(s.take(i + 1).drop_last() =~= s.take(i));
        assert(s.take(i + 1).last() == s[i]);
        assert(digits_value(s.take(i + 1)) == digits_value(s.take(i)) * 10 + ((s[i] as u32)
            - 48) as nat);
    } else {
        assert(s.take(i) =~= s);
    }
}

/// Parses decimal text the way `str::parse::<u16>` does.
pub fn parse_u16_str(s: &str) -> (r: Option<u16>)
    ensures
        r == parse_u16(s@),
{
    let v = chars_of(s);
    let start: usize = if v.len() > 0 && v[0] == '+' { 1 } else { 0 };
    let ghost d = if s@.len() > 0 && s@[0] == '+' { s@.drop_first() } else { s@ };
    assert(d =~= v@.skip(start as int));
    if start >= v.len() {
        return None;
    }
    let mut acc: u32 = 0;
    let mut i: usize = start;
    assert(d.take(0) =~= Seq::<char>::empty());
    while i < v.len()
        invariant
            start <= i <= v.len(),
            v@ == s@,
            d == v@.skip(start as int),
            d == (if s@.len() > 0 && s@[0] == '+' { s@.drop_first() } else { s@ }),
            all_digits(d.take(i - start)),
            acc == digits_value(d.take(i - start)),
            acc <= 0xFFFF,
        decreases v.len() - i,
    {
        let c = v[i];
        assert(d.take(i - start + 1).drop_last() =~= d.take(i - start));
        assert(d.take(i - start + 1).last() == c);
        assert(d[i - start] == v@[i as int]);
        if c < '0' || c > '9' {
            proof {
                assert(!('0' <= d[i - start] && d[i - start] <= '9'));
                assert(!all_digits(d));
            }
            return None;
        }
        let dv: u32 = (c as u32) - 48;
        let next: u32 = acc * 10 + dv;
        assert(all_digits(d.take(i - start + 1)));
        assert(digits_value(d.take(i - start + 1)) == digits_value(d.take(i - start)) * 10 + ((c
            as u32) - 48) as nat);
        if next > 0xFFFF {
            proof {
                if all_digits(d) {
                    lemma_digits_value_mono(d, i - start + 1);
                }
            }
            return None;
        }
        acc = next;
        i = i + 1;
    }
    assert(d.take(v.len() - start) =~= d);
    Some(acc as u16)
}

// ─── Truncation ─────────────────────────────────────────────────────────────

/// `s` cut to its first `limit` bytes and marked with `…` when it is longer
/// than `limit` bytes (the preview used for tool arguments and output).
pub open spec fn byte_preview(s: Seq<char>, limit: nat) -> Seq<char> {
    if utf8_len(s) > limit {
        s.take(char_index_of(s, limit as int)).push('\u{2026}')
    } else {
        s
    }
}

/// Whether the UTF-8 encoding of `v` is longer than `limit` bytes.
pub fn longer_than_bytes(v: &Vec<char>, limit: usize) -> (r: bool)
    ensures
        r == (utf8_len(v@) > limit),
{
    let mut acc: usize = 0;
    let mut i: usize = 0;
    while i < v.len()
        invariant
            0 <= i <= v.len(),
            acc == utf8_len(v@.take(i as int)),
            acc <= limit,
        decreases v.len() - i,
    {
        proof {
            lemma_utf8_len_push(v@.take(i as int), v@[i as int]);
            assert(v@.take(i + 1) =~= v@.take(i as int).push(v@[i as int]));
        }
        let w = char_len_utf8(v[i]);
        if w > limit - acc {
            proof { lemma_utf8_len_take_le(v@, i + 1); }
            return true;
        }
        acc = acc + w;
        i = i + 1;
    }
    assert(v@.take(v.len() as int) =~= v@);
    false
}

/// The byte-limited preview of `s` (see [`byte_preview`]).
pub fn preview_bytes(s: String, limit: usize) -> (r: String)
    requires
        utf8_len(s@) > limit ==> is_boundary(s@, limit as int),
    ensures
        r@ == byte_preview(s@, limit as nat),
{
    let v = chars_of(s.as_str());
    if longer_than_bytes(&v, limit) {
        let k = char_index_at(&v, limit);
        match k {
            Some(k) => {
                let mut r = string_from_range(&v, 0, k);
                push_char(&mut r, '\u{2026}');
                assert(v@.subrange(0, k as int) =~= v@.take(k as int));
                r
            },
            None => {
                proof { assert(false); }
                s
            },
        }
    } else {
        s
    }
}

/// `s` cut to its first `keep` characters and marked with `…` when it has
/// more than `limit` characters.
pub open spec fn char_preview(s: Seq<char>, limit: nat, keep: nat) -> Seq<char> {
    if s.len() > limit {
        s.take(keep as int).push('\u{2026}')
    } else {
        s
    }
}

/// The character-limited preview of `s` (see [`char_preview`]).
pub fn preview_chars(s: &str, limit: usize, keep: usize) -> (r: String)
    requires
        keep <= limit,
    ensures
        r@ == char_preview(s@, limit as nat, keep as nat),
{
    let v = chars_of(s);
    if v.len() > limit {
        let mut r = string_from_range(&v, 0, keep);
        push_char(&mut r, '\u{2026}');
        assert(v@.subrange(0, keep as int) =~= v@.take(keep as int));
        r
    } else {
        copy_str(s)
    }
}

} // verus!
