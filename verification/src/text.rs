//! Character-level text utilities shared by the views.
//!
//! Strings are handled as sequences of `char`; every function here states its
//! result over the `Seq<char>` view of its arguments.
use vstd::prelude::*;

verus! {

/// `String::push` appends one character.
pub assume_specification[ String::push ](s: &mut String, ch: char)
    ensures
        final(s)@ == old(s)@.push(ch),
;

/// The characters of a string slice, in order.
pub fn chars_of(s: &str) -> (v: Vec<char>)
    ensures
        v@ == s@,
{
    let mut v: Vec<char> = Vec::new();
    for c in it: s.chars()
        invariant
            v@ == it.seq().take(it.index() as int),
            it.seq() == s@,
    {
        v.push(c);
    }
    v
}

/// A `String` holding exactly the given characters.
pub fn string_of(v: &[char]) -> (s: String)
    ensures
        s@ == v@,
{
    let mut s = String::new();
    let mut i: usize = 0;
    while i < v.len()
        invariant
            i <= v.len(),
            s@ == v@.take(i as int),
        decreases v.len() - i,
    {
        s.push(v[i]);
        assert(v@.take(i + 1) =~= v@.take(i as int).push(v@[i as int]));
        i = i + 1;
    }
    assert(v@.take(v@.len() as int) =~= v@);
    s
}

/// A `String` holding the given text.
pub fn owned(s: &str) -> (r: String)
    ensures
        r@ == s@,
{
    let mut r = String::new();
    push_str(&mut r, s);
    r
}

/// Appends all characters of `tail` to `s`.
pub fn push_chars(s: &mut String, tail: &[char])
    ensures
        final(s)@ == old(s)@ + tail@,
{
    let mut i: usize = 0;
    while i < tail.len()
        invariant
            i <= tail.len(),
            s@ == old(s)@ + tail@.take(i as int),
        decreases tail.len() - i,
    {
        s.push(tail[i]);
        assert(tail@.take(i + 1) =~= tail@.take(i as int).push(tail@[i as int]));
        i = i + 1;
    }
    assert(tail@.take(tail@.len() as int) =~= tail@);
}

/// Appends all characters of `tail` to `s`.
pub fn push_str(s: &mut String, tail: &str)
    ensures
        final(s)@ == old(s)@ + tail@,
{
    let v = chars_of(tail);
    push_chars(s, v.as_slice());
}

/// The characters `v[lo..hi]` as a new vector.
pub fn sub_chars(v: &[char], lo: usize, hi: usize) -> (r: Vec<char>)
    requires
        lo <= hi <= v@.len(),
    ensures
        r@ == v@.subrange(lo as int, hi as int),
{
    let mut r: Vec<char> = Vec::new();
    let mut i: usize = lo;
    while i < hi
        invariant
            lo <= i <= hi,
            hi <= v@.len(),
            r@ == v@.subrange(lo as int, i as int),
        decreases hi - i,
    {
        r.push(v[i]);
        assert(v@.subrange(lo as int, i + 1) =~= v@.subrange(lo as int, i as int).push(
            v@[i as int],
        ));
        i = i + 1;
    }
    r
}

// ---------------------------------------------------------------------------
// Decimal rendering of integers
// ---------------------------------------------------------------------------

/// The ASCII digit for `d` (taken modulo 10).
pub open spec fn digit_char(d: nat) -> char {
    ((d % 10) + 48) as char
}

/// Decimal representation of a natural number, without sign or padding.
pub open spec fn nat_decimal(n: nat) -> Seq<char>
    decreases n,
{
    if n < 10 {
        seq![digit_char(n)]
    } else {
        nat_decimal(n / 10).push(digit_char(n % 10))
    }
}

/// Decimal representation of an integer, with a leading `-` when negative.
pub open spec fn int_decimal(i: int) -> Seq<char> {
    if i < 0 {
        seq!['-'] + nat_decimal((-i) as nat)
    } else {
        nat_decimal(i as nat)
    }
}

fn digit_of(d: u64) -> (c: char)
    requires
        d < 10,
    ensures
        c == digit_char(d as nat),
{
    let b: u8 = (d as u8) + 48;
    b as char
}

/// Appends the decimal representation of `n` to `s`.
pub fn push_u64(s: &mut String, n: u64)
    ensures
        final(s)@ == old(s)@ + nat_decimal(n as nat),
    decreases n,
{
    if n >= 10 {
        push_u64(s, n / 10);
    }
    s.push(digit_of(n % 10));
    assert(n >= 10 ==> nat_decimal(n as nat) == nat_decimal((n / 10) as nat).push(
        digit_char((n % 10) as nat),
    ));
}

/// Appends the decimal representation of `n` to `s`.
pub fn push_i64(s: &mut String, n: i64)
    ensures
        final(s)@ == old(s)@ + int_decimal(n as int),
{
    if n < 0 {
        s.push('-');
        let m: u64 = if n == i64::MIN {
            9223372036854775808u64
        } else {
            (-n) as u64
        };
        push_u64(s, m);
        assert(old(s)@.push('-') + nat_decimal(m as nat) =~= old(s)@ + (seq!['-'] + nat_decimal(
            (-n) as nat,
        )));
    } else {
        push_u64(s, n as u64);
    }
}


// ---------------------------------------------------------------------------
// Whitespace, trimming and line splitting
// ---------------------------------------------------------------------------

/// `char::is_whitespace`: the characters with the Unicode `White_Space` property.
pub open spec fn is_ws(c: char) -> bool {
    let u = c as u32;
    (0x9 <= u && u <= 0xD) || u == 0x20 || u == 0x85 || u == 0xA0 || u == 0x1680 || (0x2000 <= u
        && u <= 0x200A) || u == 0x2028 || u == 0x2029 || u == 0x202F || u == 0x205F || u == 0x3000
}

/// Whether `c` has the Unicode `White_Space` property.
pub fn is_whitespace(c: char) -> (b: bool)
    ensures
        b == is_ws(c),
{
    let u: u32 = c as u32;
    (0x9 <= u && u <= 0xD) || u == 0x20 || u == 0x85 || u == 0xA0 || u == 0x1680 || (0x2000 <= u
        && u <= 0x200A) || u == 0x2028 || u == 0x2029 || u == 0x202F || u == 0x205F || u == 0x3000
}

/// The index of the first non-whitespace character at or after `i`.
pub open spec fn lead_from(s: Seq<char>, i: int) -> int
    decreases s.len() - i,
{
    if 0 <= i < s.len() && is_ws(s[i]) {
        lead_from(s, i + 1)
    } else {
        i
    }
}

/// The end of `s[..j]` once trailing whitespace is dropped.
pub open spec fn trail_to(s: Seq<char>, j: int) -> int
    decreases j,
{
    if 0 < j <= s.len() && is_ws(s[j - 1]) {
        trail_to(s, j - 1)
    } else {
        j
    }
}

/// `str::trim_start`.
pub open spec fn trim_start(s: Seq<char>) -> Seq<char> {
    s.subrange(lead_from(s, 0), s.len() as int)
}

/// `str::trim_end`.
pub open spec fn trim_end(s: Seq<char>) -> Seq<char> {
    s.subrange(0, trail_to(s, s.len() as int))
}

/// `str::trim`.
pub open spec fn trim(s: Seq<char>) -> Seq<char> {
    trim_end(trim_start(s))
}

pub proof fn lemma_lead_from_bounds(s: Seq<char>, i: int)
    requires
        0 <= i <= s.len(),
    ensures
        i <= lead_from(s, i) <= s.len(),
        lead_from(s, i) < s.len() ==> !is_ws(s[lead_from(s, i)]),
        forall|k: int| i <= k < lead_from(s, i) ==> is_ws(#[trigger] s[k]),
    decreases s.len() - i,
{
    if i < s.len() && is_ws(s[i]) {
        lemma_lead_from_bounds(s, i + 1);
    }
}

pub proof fn lemma_trail_to_bounds(s: Seq<char>, j: int)
    requires
        0 <= j <= s.len(),
    ensures
        0 <= trail_to(s, j) <= j,
        trail_to(s, j) > 0 ==> !is_ws(s[trail_to(s, j) - 1]),
        forall|k: int| trail_to(s, j) <= k < j ==> is_ws(#[trigger] s[k]),
    decreases j,
{
    if j > 0 && is_ws(s[j - 1]) {
        lemma_trail_to_bounds(s, j - 1);
    }
}

/// The bounds `(lo, hi)` with `s[lo..hi]` equal to `str::trim` of `s`.
pub fn trim_bounds(s: &[char]) -> (r: (usize, usize))
    ensures
        r.0 <= r.1 <= s@.len(),
        s@.subrange(r.0 as int, r.1 as int) == trim(s@),
        r.0 as int == lead_from(s@, 0),
{
    let mut i: usize = 0;
    while i < s.len() && is_whitespace(s[i])
        invariant
            i <= s@.len(),
            lead_from(s@, i as int) == lead_from(s@, 0),
        decreases s.len() - i,
    {
        i = i + 1;
    }
    proof {
        lemma_lead_from_bounds(s@, 0);
    }
    let ghost t = s@.subrange(i as int, s@.len() as int);
    let mut j: usize = s.len();
    while j > i && is_whitespace(s[j - 1])
        invariant
            i <= j <= s@.len(),
            t == s@.subrange(i as int, s@.len() as int),
            trail_to(t, j - i) == trail_to(t, t.len() as int),
        decreases j,
    {
        assert(t[j - 1 - i] == s@[j - 1]);
        j = j - 1;
    }
    proof {
        if j > i {
            assert(t[j - i - 1] == s@[j - 1]);
        }
        assert(trail_to(t, j - i) == j - i);
        assert(trim(s@) =~= t.subrange(0, j - i));
        assert(s@.subrange(i as int, j as int) =~= t.subrange(0, j - i));
    }
    (i, j)
}

/// `str::trim` of the given characters.
pub fn trim_chars(s: &[char]) -> (r: Vec<char>)
    ensures
        r@ == trim(s@),
{
    let (lo, hi) = trim_bounds(s);
    sub_chars(s, lo, hi)
}

/// `str::trim_start` of the given characters.
pub fn trim_start_chars(s: &[char]) -> (r: Vec<char>)
    ensures
        r@ == trim_start(s@),
{
    let (lo, _hi) = trim_bounds(s);
    proof {
        lemma_lead_from_bounds(s@, 0);
    }
    sub_chars(s, lo, s.len())
}

/// The index of the first `c` at or after `i` in `s`, or `s.len()` when there is none.
pub open spec fn next_index_of(s: Seq<char>, c: char, i: int) -> int
    decreases s.len() - i,
{
    if i < 0 || i >= s.len() {
        s.len() as int
    } else if s[i] == c {
        i
    } else {
        next_index_of(s, c, i + 1)
    }
}

pub proof fn lemma_next_index_of(s: Seq<char>, c: char, i: int)
    requires
        0 <= i <= s.len(),
    ensures
        i <= next_index_of(s, c, i) <= s.len(),
        next_index_of(s, c, i) < s.len() ==> s[next_index_of(s, c, i)] == c,
        forall|k: int| i <= k < next_index_of(s, c, i) ==> #[trigger] s[k] != c,
    decreases s.len() - i,
{
    if i < s.len() && s[i] != c {
        lemma_next_index_of(s, c, i + 1);
    }
}

/// `str::find` for a single character: the first index of `c` in `s`.
pub open spec fn find_char(s: Seq<char>, c: char) -> Option<nat> {
    let k = next_index_of(s, c, 0);
    if k < s.len() {
        Some(k as nat)
    } else {
        None
    }
}

/// Index of the first `c` at or after `from`, or `s.len()` when there is none.
pub fn next_index(s: &[char], c: char, from: usize) -> (k: usize)
    requires
        from <= s@.len(),
    ensures
        k as int == next_index_of(s@, c, from as int),
        from <= k <= s@.len(),
{
    let mut k = from;
    while k < s.len() && s[k] != c
        invariant
            from <= k <= s@.len(),
            next_index_of(s@, c, k as int) == next_index_of(s@, c, from as int),
        decreases s.len() - k,
    {
        k = k + 1;
    }
    k
}

/// The first index of `c` in `s`.
pub fn find(s: &[char], c: char) -> (r: Option<usize>)
    ensures
        r matches Some(k) ==> find_char(s@, c) == Some(k as nat) && k < s@.len() && s@[k as int] == c,
        r is None ==> find_char(s@, c) is None,
{
    let k = next_index(s, c, 0);
    proof {
        lemma_next_index_of(s@, c, 0);
    }
    if k < s.len() {
        Some(k)
    } else {
        None
    }
}

/// A line without its trailing `\r`, as `str::lines` yields it.
pub open spec fn strip_cr(l: Seq<char>) -> Seq<char> {
    if l.len() > 0 && l.last() == '\r' {
        l.drop_last()
    } else {
        l
    }
}

/// `str::lines` of `s[i..]`: split at `\n`, a `\r` before the `\n` dropped, and no
/// empty final line after a trailing line ending.
pub open spec fn lines_from(s: Seq<char>, i: int) -> Seq<Seq<char>>
    decreases s.len() - i,
{
    if i < 0 || i >= s.len() {
        seq![]
    } else {
        let j = next_index_of(s, '\n', i);
        if j >= s.len() {
            seq![s.subrange(i, s.len() as int)]
        } else {
            proof {
                lemma_next_index_of(s, '\n', i);
            }
            seq![strip_cr(s.subrange(i, j))] + lines_from(s, j + 1)
        }
    }
}

/// `str::lines`.
pub open spec fn lines(s: Seq<char>) -> Seq<Seq<char>> {
    lines_from(s, 0)
}

/// `str::lines`: the lines of `s`, each as a vector of characters.
pub fn split_lines(s: &[char]) -> (r: Vec<Vec<char>>)
    ensures
        r@.len() == lines(s@).len(),
        forall|k: int| 0 <= k < r@.len() ==> (#[trigger] r@[k])@ == lines(s@)[k],
{
    let mut r: Vec<Vec<char>> = Vec::new();
    let mut i: usize = 0;
    while i < s.len()
        invariant
            i <= s@.len(),
            r@.len() + lines_from(s@, i as int).len() == lines(s@).len(),
            forall|k: int| 0 <= k < r@.len() ==> (#[trigger] r@[k])@ == lines(s@)[k],
            forall|k: int|
                0 <= k < lines_from(s@, i as int).len() ==> #[trigger] lines_from(
                    s@,
                    i as int,
                )[k] == lines(s@)[r@.len() + k],
        decreases s.len() - i,
    {
        let j = next_index(s, '\n', i);
        proof {
            lemma_next_index_of(s@, '\n', i as int);
        }
        if j >= s.len() {
            let line = sub_chars(s, i, s.len());
            assert(lines_from(s@, i as int)[0] == lines(s@)[r@.len() as int]);
            r.push(line);
            i = s.len();
        } else {
            let mut line = sub_chars(s, i, j);
            if line.len() > 0 && line[line.len() - 1] == '\r' {
                line.pop();
            }
            let ghost rest = lines_from(s@, j + 1);
            assert(lines_from(s@, i as int) == seq![strip_cr(s@.subrange(i as int, j as int))]
                + rest);
            assert(lines_from(s@, i as int)[0] == lines(s@)[r@.len() as int]);
            assert forall|k: int| 0 <= k < rest.len() implies #[trigger] rest[k] == lines(
                s@,
            )[r@.len() + 1 + k] by {
                assert(lines_from(s@, i as int)[k + 1] == rest[k]);
            }
            r.push(line);
            i = j + 1;
        }
    }
    r
}


// ---------------------------------------------------------------------------
// Substrings
// ---------------------------------------------------------------------------

/// `n` occurs in `h` starting at index `i`.
pub open spec fn occurs_at(h: Seq<char>, n: Seq<char>, i: int) -> bool {
    0 <= i && i + n.len() <= h.len() && h.subrange(i, i + n.len()) == n
}

/// The first index at or after `i` where `n` occurs in `h`.
pub open spec fn occurrence_from(h: Seq<char>, n: Seq<char>, i: int) -> Option<nat>
    decreases h.len() + 1 - i,
{
    if i < 0 || i + n.len() > h.len() {
        None
    } else if occurs_at(h, n, i) {
        Some(i as nat)
    } else {
        occurrence_from(h, n, i + 1)
    }
}

/// `str::find` with a string pattern: the first index where `n` occurs in `h`.
pub open spec fn find_seq(h: Seq<char>, n: Seq<char>) -> Option<nat> {
    occurrence_from(h, n, 0)
}

/// `str::contains` with a string pattern.
pub open spec fn contains(h: Seq<char>, n: Seq<char>) -> bool {
    find_seq(h, n) is Some
}

/// `str::starts_with` with a string pattern.
pub open spec fn starts_with(h: Seq<char>, p: Seq<char>) -> bool {
    p.len() <= h.len() && h.take(p.len() as int) == p
}

/// `str::ends_with` with a string pattern.
pub open spec fn ends_with(h: Seq<char>, p: Seq<char>) -> bool {
    p.len() <= h.len() && h.skip(h.len() - p.len()) == p
}

pub proof fn lemma_occurrence_from(h: Seq<char>, n: Seq<char>, i: int)
    requires
        0 <= i,
    ensures
        occurrence_from(h, n, i) matches Some(k) ==> i <= k && occurs_at(h, n, k as int),
        occurrence_from(h, n, i) matches Some(k) ==> forall|m: int|
            i <= m < k ==> !#[trigger] occurs_at(h, n, m),
        occurrence_from(h, n, i) is None ==> forall|m: int| i <= m ==> !#[trigger] occurs_at(h, n, m),
    decreases h.len() + 1 - i,
{
    if i + n.len() > h.len() {
    } else if occurs_at(h, n, i) {
    } else {
        lemma_occurrence_from(h, n, i + 1);
    }
}

/// Whether `n` occurs in `h` at index `i`.
pub fn matches_at(h: &[char], n: &[char], i: usize) -> (b: bool)
    ensures
        b == occurs_at(h@, n@, i as int),
{
    if i > h.len() || n.len() > h.len() - i {
        return false;
    }
    let mut k: usize = 0;
    while k < n.len()
        invariant
            k <= n@.len(),
            i + n@.len() <= h@.len(),
            i + n.len() <= h.len(),
            forall|m: int| 0 <= m < k ==> h@[i + m] == n@[m],
        decreases n.len() - k,
    {
        if h[i + k] != n[k] {
            assert(h@.subrange(i as int, i + n@.len())[k as int] != n@[k as int]);
            return false;
        }
        k = k + 1;
    }
    assert(h@.subrange(i as int, i + n@.len()) =~= n@);
    true
}

/// The first index where `n` occurs in `h`.
pub fn find_chars(h: &[char], n: &[char]) -> (r: Option<usize>)
    ensures
        r matches Some(k) ==> find_seq(h@, n@) == Some(k as nat),
        r is None ==> find_seq(h@, n@) is None,
{
    if n.len() > h.len() {
        return None;
    }
    let mut i: usize = 0;
    loop
        invariant
            n@.len() <= h@.len(),
            i <= h@.len() - n@.len(),
            occurrence_from(h@, n@, i as int) == find_seq(h@, n@),
        decreases h.len() - n.len() - i,
    {
        if matches_at(h, n, i) {
            return Some(i);
        }
        if i == h.len() - n.len() {
            assert(occurrence_from(h@, n@, i + 1) is None);
            return None;
        }
        i = i + 1;
    }
}

/// Whether `n` occurs in `h`.
pub fn contains_chars(h: &[char], n: &[char]) -> (b: bool)
    ensures
        b == contains(h@, n@),
{
    find_chars(h, n).is_some()
}

/// Whether `n` occurs in `h`.
pub fn contains_str(h: &[char], n: &str) -> (b: bool)
    ensures
        b == contains(h@, n@),
{
    let nv = chars_of(n);
    contains_chars(h, nv.as_slice())
}

/// Whether `h` starts with `p`.
pub fn starts_with_chars(h: &[char], p: &[char]) -> (b: bool)
    ensures
        b == starts_with(h@, p@),
{
    let r = matches_at(h, p, 0);
    proof {
        if p@.len() <= h@.len() {
            assert(h@.take(p@.len() as int) =~= h@.subrange(0, p@.len() as int));
        }
    }
    r
}

/// Whether `h` ends with `p`.
pub fn ends_with_chars(h: &[char], p: &[char]) -> (b: bool)
    ensures
        b == ends_with(h@, p@),
{
    if p.len() > h.len() {
        return false;
    }
    let r = matches_at(h, p, h.len() - p.len());
    proof {
        assert(h@.skip(h@.len() - p@.len()) =~= h@.subrange(
            h@.len() - p@.len(),
            h@.len() as int,
        ));
    }
    r
}

/// Whether two character sequences are equal.
pub fn chars_eq(a: &[char], b: &[char]) -> (r: bool)
    ensures
        r == (a@ == b@),
{
    if a.len() != b.len() {
        return false;
    }
    let r = matches_at(a, b, 0);
    proof {
        assert(a@.subrange(0, b@.len() as int) =~= a@);
    }
    r
}

/// Whether the characters equal the given literal.
pub fn chars_eq_str(a: &[char], b: &str) -> (r: bool)
    ensures
        r == (a@ == b@),
{
    let bv = chars_of(b);
    chars_eq(a, bv.as_slice())
}

// ---------------------------------------------------------------------------
// Whitespace-separated words
// ---------------------------------------------------------------------------

/// The index of the first whitespace character at or after `i`, or `s.len()`.
pub open spec fn next_ws(s: Seq<char>, i: int) -> int
    decreases s.len() - i,
{
    if i < 0 || i >= s.len() {
        s.len() as int
    } else if is_ws(s[i]) {
        i
    } else {
        next_ws(s, i + 1)
    }
}

pub proof fn lemma_next_ws(s: Seq<char>, i: int)
    requires
        0 <= i <= s.len(),
    ensures
        i <= next_ws(s, i) <= s.len(),
    decreases s.len() - i,
{
    if i < s.len() && !is_ws(s[i]) {
        lemma_next_ws(s, i + 1);
    }
}

/// `str::split_whitespace` of `s[i..]`.
pub open spec fn words_from(s: Seq<char>, i: int) -> Seq<Seq<char>>
    decreases s.len() - i,
{
    if i < 0 || i >= s.len() {
        seq![]
    } else {
        let t = lead_from(s, i);
        if t >= s.len() {
            seq![]
        } else {
            let e = next_ws(s, t);
            proof {
                lemma_lead_from_bounds(s, i);
                lemma_next_ws(s, t + 1);
            }
            seq![s.subrange(t, e)] + words_from(s, e)
        }
    }
}

/// `str::split_whitespace`.
pub open spec fn words(s: Seq<char>) -> Seq<Seq<char>> {
    words_from(s, 0)
}

/// `str::split_whitespace`: the words of `s`.
pub fn split_words(s: &[char]) -> (r: Vec<Vec<char>>)
    ensures
        r@.len() == words(s@).len(),
        forall|k: int| 0 <= k < r@.len() ==> (#[trigger] r@[k])@ == words(s@)[k],
{
    let mut r: Vec<Vec<char>> = Vec::new();
    let mut i: usize = 0;
    while i < s.len()
        invariant
            i <= s@.len(),
            r@.len() + words_from(s@, i as int).len() == words(s@).len(),
            forall|k: int| 0 <= k < r@.len() ==> (#[trigger] r@[k])@ == words(s@)[k],
            forall|k: int|
                0 <= k < words_from(s@, i as int).len() ==> #[trigger] words_from(
                    s@,
                    i as int,
                )[k] == words(s@)[r@.len() + k],
        decreases s.len() - i,
    {
        let mut t = i;
        while t < s.len() && is_whitespace(s[t])
            invariant
                i <= t <= s@.len(),
                lead_from(s@, t as int) == lead_from(s@, i as int),
            decreases s.len() - t,
        {
            t = t + 1;
        }
        if t >= s.len() {
            i = s.len();
        } else {
            let mut e = t;
            while e < s.len() && !is_whitespace(s[e])
                invariant
                    t <= e <= s@.len(),
                    next_ws(s@, e as int) == next_ws(s@, t as int),
                decreases s.len() - e,
            {
                e = e + 1;
            }
            let w = sub_chars(s, t, e);
            let ghost rest = words_from(s@, e as int);
            assert(words_from(s@, i as int) == seq![s@.subrange(t as int, e as int)] + rest);
            assert(words_from(s@, i as int)[0] == words(s@)[r@.len() as int]);
            assert forall|k: int| 0 <= k < rest.len() implies #[trigger] rest[k] == words(
                s@,
            )[r@.len() + 1 + k] by {
                assert(words_from(s@, i as int)[k + 1] == rest[k]);
            }
            r.push(w);
            i = e;
        }
    }
    r
}

// ---------------------------------------------------------------------------
// Integer parsing with the rules of `FromStr` for the integer types
// ---------------------------------------------------------------------------

/// An ASCII decimal digit.
pub open spec fn is_digit(c: char) -> bool {
    '0' <= c <= '9'
}

/// All characters are ASCII decimal digits.
pub open spec fn all_digits(d: Seq<char>) -> bool {
    forall|k: int| 0 <= k < d.len() ==> is_digit(#[trigger] d[k])
}

/// The value of a string of decimal digits.
pub open spec fn digits_value(d: Seq<char>) -> nat
    decreases d.len(),
{
    if d.len() == 0 {
        0
    } else {
        digits_value(d.drop_last()) * 10 + ((d.last() as u32) - 48) as nat
    }
}

/// `i64::from_str`-style parsing into an unbounded integer: an optional `+` or `-`
/// followed by at least one ASCII digit, nothing else.
pub open spec fn parse_signed(s: Seq<char>) -> Option<int> {
    let neg = s.len() > 0 && s[0] == '-';
    let d = if s.len() > 0 && (s[0] == '-' || s[0] == '+') {
        s.drop_first()
    } else {
        s
    };
    if d.len() == 0 || !all_digits(d) {
        None
    } else if neg {
        Some(-(digits_value(d) as int))
    } else {
        Some(digits_value(d) as int)
    }
}

/// `u64::from_str`-style parsing into an unbounded natural: an optional `+`
/// followed by at least one ASCII digit, nothing else.
pub open spec fn parse_unsigned(s: Seq<char>) -> Option<nat> {
    let d = if s.len() > 0 && s[0] == '+' {
        s.drop_first()
    } else {
        s
    };
    if d.len() == 0 || !all_digits(d) {
        None
    } else {
        Some(digits_value(d))
    }
}

/// `i32::from_str`: the parsed value when it is well formed and fits in an `i32`.
pub open spec fn parse_i32_spec(s: Seq<char>) -> Option<i32> {
    match parse_signed(s) {
        Some(v) => if i32::MIN <= v <= i32::MAX {
            Some(v as i32)
        } else {
            None
        },
        None => None,
    }
}

/// `usize::from_str`: the parsed value when it is well formed and fits in a `usize`.
pub open spec fn parse_usize_spec(s: Seq<char>) -> Option<usize> {
    match parse_unsigned(s) {
        Some(v) => if v <= usize::MAX {
            Some(v as usize)
        } else {
            None
        },
        None => None,
    }
}

proof fn lemma_digits_value_mono(d: Seq<char>, k: int)
    requires
        0 <= k <= d.len(),
    ensures
        digits_value(d.take(k)) <= digits_value(d),
    decreases d.len() - k,
{
    if k < d.len() {
        lemma_digits_value_mono(d, k + 1);
        assert(d.take(k + 1).drop_last() =~= d.take(k));
    } else {
        assert(d.take(k) =~= d);
    }
}

/// Parses ASCII digits `d[lo..]`; `None` when a non-digit occurs or when the value
/// exceeds `bound`.
fn parse_digits(d: &[char], lo: usize, bound: u64) -> (r: Option<u64>)
    requires
        lo <= d@.len(),
        bound >= 9,
    ensures
        ({
            let t = d@.skip(lo as int);
            match r {
                Some(v) => all_digits(t) && v == digits_value(t) && v <= bound,
                None => !all_digits(t) || digits_value(t) > bound,
            }
        }),
{
    let ghost t = d@.skip(lo as int);
    let mut acc: u64 = 0;
    let mut i: usize = lo;
    while i < d.len()
        invariant
            lo <= i <= d@.len(),
            t == d@.skip(lo as int),
            all_digits(t.take(i - lo)),
            acc == digits_value(t.take(i - lo)),
            acc <= bound,
            bound >= 9,
        decreases d.len() - i,
    {
        let c = d[i];
        if !('0' <= c && c <= '9') {
            assert(t[i - lo] == c);
            return None;
        }
        let dv: u64 = ((c as u32) - 48) as u64;
        assert(t.take(i - lo + 1).drop_last() =~= t.take(i - lo));
        assert(t.take(i - lo + 1).last() == c);
        if acc > (bound - dv) / 10 {
            assert(digits_value(t.take(i - lo + 1)) > bound) by (nonlinear_arith)
                requires
                    acc > (bound - dv) / 10,
                    digits_value(t.take(i - lo + 1)) == acc * 10 + dv,
                    dv <= 9,
            ;
            proof {
                lemma_digits_value_mono(t, i - lo + 1);
            }
            return None;
        }
        assert(acc * 10 + dv <= bound) by (nonlinear_arith)
            requires
                acc <= (bound - dv) / 10,
                dv <= bound || acc == 0,
        ;
        acc = acc * 10 + dv;
        i = i + 1;
    }
    assert(t.take(i - lo) =~= t);
    Some(acc)
}

/// `str::parse::<i32>()`, returning `None` on any error.
pub fn parse_i32(s: &[char]) -> (r: Option<i32>)
    ensures
        r == parse_i32_spec(s@),
{
    let neg = s.len() > 0 && s[0] == '-';
    let lo: usize = if s.len() > 0 && (s[0] == '-' || s[0] == '+') {
        1
    } else {
        0
    };
    proof {
        if lo == 1 {
            assert(s@.skip(1) =~= s@.drop_first());
        } else {
            assert(s@.skip(0) =~= s@);
        }
    }
    if lo == s.len() {
        return None;
    }
    let bound: u64 = if neg {
        2147483648
    } else {
        2147483647
    };
    match parse_digits(s, lo, bound) {
        Some(v) => {
            if neg {
                if v == 2147483648 {
                    Some(i32::MIN)
                } else {
                    Some(-(v as i32))
                }
            } else {
                Some(v as i32)
            }
        },
        None => None,
    }
}

/// `str::parse::<usize>()`, returning `None` on any error.
pub fn parse_usize(s: &[char]) -> (r: Option<usize>)
    ensures
        r == parse_usize_spec(s@),
{
    let lo: usize = if s.len() > 0 && s[0] == '+' {
        1
    } else {
        0
    };
    proof {
        if lo == 1 {
            assert(s@.skip(1) =~= s@.drop_first());
        } else {
            assert(s@.skip(0) =~= s@);
        }
    }
    if lo == s.len() {
        return None;
    }
    let bound: u64 = if usize::MAX as u64 == u64::MAX { u64::MAX } else { usize::MAX as u64 };
    match parse_digits(s, lo, bound) {
        Some(v) => Some(v as usize),
        None => None,
    }
}


// ---------------------------------------------------------------------------
// UTF-8 byte lengths
// ---------------------------------------------------------------------------

/// The number of bytes of the UTF-8 encoding of `c`.
pub open spec fn char_utf8_len(c: char) -> nat {
    let u = c as u32;
    if u <= 0x7F {
        1
    } else if u <= 0x7FF {
        2
    } else if u <= 0xFFFF {
        3
    } else {
        4
    }
}

/// The number of bytes of the UTF-8 encoding of `s` (what `str::len` returns).
pub open spec fn byte_len(s: Seq<char>) -> nat
    decreases s.len(),
{
    if s.len() == 0 {
        0
    } else {
        byte_len(s.drop_last()) + char_utf8_len(s.last())
    }
}

pub proof fn lemma_byte_len_prepend(c: char, t: Seq<char>)
    ensures
        byte_len(seq![c] + t) == char_utf8_len(c) + byte_len(t),
    decreases t.len(),
{
    if t.len() > 0 {
        lemma_byte_len_prepend(c, t.drop_last());
        assert((seq![c] + t).drop_last() =~= seq![c] + t.drop_last());
        assert((seq![c] + t).last() == t.last());
    } else {
        assert(seq![c] + t =~= seq![c]);
        assert(seq![c].drop_last() =~= Seq::<char>::empty());
        assert(byte_len(Seq::<char>::empty()) == 0);
        assert(byte_len(seq![c]) == byte_len(seq![c].drop_last()) + char_utf8_len(c));
    }
}

pub proof fn lemma_byte_len_append(a: Seq<char>, b: Seq<char>)
    ensures
        byte_len(a + b) == byte_len(a) + byte_len(b),
    decreases b.len(),
{
    if b.len() > 0 {
        lemma_byte_len_append(a, b.drop_last());
        assert((a + b).drop_last() =~= a + b.drop_last());
    } else {
        assert(a + b =~= a);
    }
}

/// `byte_len` agrees with the length of vstd's UTF-8 encoding.
pub proof fn lemma_byte_len_encoding(s: Seq<char>)
    ensures
        byte_len(s) == vstd::utf8::encode_utf8(s).len(),
    decreases s.len(),
{
    if s.len() > 0 {
        lemma_byte_len_encoding(s.drop_first());
        lemma_byte_len_prepend(s[0], s.drop_first());
        assert(seq![s[0]] + s.drop_first() =~= s);
        let u = s[0] as u32;
        assert(vstd::utf8::is_scalar(u)) by {
            vstd::utf8::char_is_scalar(s[0]);
        }
    }
}

/// Bytes of the UTF-8 encoding of `c`.
pub fn char_bytes(c: char) -> (n: usize)
    ensures
        n == char_utf8_len(c),
{
    let u: u32 = c as u32;
    if u <= 0x7F {
        1
    } else if u <= 0x7FF {
        2
    } else if u <= 0xFFFF {
        3
    } else {
        4
    }
}

/// Whether the UTF-8 encoding of `s` takes at most `max` bytes.
pub fn byte_len_at_most(s: &[char], max: usize) -> (b: bool)
    ensures
        b == (byte_len(s@) <= max),
{
    let mut k: usize = 0;
    let mut acc: usize = 0;
    while k < s.len()
        invariant
            k <= s@.len(),
            acc == byte_len(s@.take(k as int)),
            acc <= max,
        decreases s.len() - k,
    {
        let w = char_bytes(s[k]);
        assert(s@.take(k + 1).drop_last() =~= s@.take(k as int));
        if w > max - acc {
            proof {
                lemma_byte_len_append(s@.take(k + 1), s@.skip(k + 1));
                assert(s@.take(k + 1) + s@.skip(k + 1) =~= s@);
            }
            return false;
        }
        acc = acc + w;
        k = k + 1;
    }
    assert(s@.take(k as int) =~= s@);
    true
}

/// The number of leading characters of `s` whose encoding takes exactly `b` bytes,
/// if `b` falls on a character boundary.
pub fn chars_for_bytes(s: &[char], b: usize) -> (r: Option<usize>)
    ensures
        r matches Some(k) ==> k <= s@.len() && byte_len(s@.take(k as int)) == b,
        r is None ==> forall|k: int| 0 <= k <= s@.len() ==> byte_len(#[trigger] s@.take(k)) != b,
{
    let mut k: usize = 0;
    let mut acc: usize = 0;
    while k < s.len() && acc < b
        invariant
            k <= s@.len(),
            acc == byte_len(s@.take(k as int)),
            acc <= b || k == 0,
            forall|m: int| 0 <= m < k ==> byte_len(#[trigger] s@.take(m)) < b,
        decreases s.len() - k,
    {
        let w = char_bytes(s[k]);
        assert(s@.take(k + 1).drop_last() =~= s@.take(k as int));
        if w > b - acc {
            proof {
                assert forall|m: int| k < m <= s@.len() implies byte_len(#[trigger] s@.take(m))
                    > b by {
                    lemma_byte_len_append(s@.take(k + 1), s@.subrange(k + 1, m));
                    assert(s@.take(k + 1) + s@.subrange(k + 1, m) =~= s@.take(m));
                }
            }
            return None;
        }
        acc = acc + w;
        k = k + 1;
    }
    if acc == b {
        Some(k)
    } else {
        proof {
            if k < s@.len() {
                assert forall|m: int| k < m <= s@.len() implies byte_len(#[trigger] s@.take(m))
                    > b by {
                    lemma_byte_len_append(s@.take(k as int), s@.subrange(k as int, m));
                    assert(s@.take(k as int) + s@.subrange(k as int, m) =~= s@.take(m));
                    assert(s@.subrange(k as int, m).len() > 0);
                    lemma_byte_len_positive(s@.subrange(k as int, m));
                }
            }
        }
        None
    }
}

pub proof fn lemma_byte_len_positive(s: Seq<char>)
    ensures
        s.len() > 0 ==> byte_len(s) > 0,
        byte_len(s) >= s.len(),
    decreases s.len(),
{
    if s.len() > 0 {
        lemma_byte_len_positive(s.drop_last());
    }
}

// ---------------------------------------------------------------------------
// Case mapping and character classes provided by `std`
// ---------------------------------------------------------------------------

/// ASCII upper-case letters mapped to lower case, all other characters unchanged.
pub open spec fn ascii_lower(c: char) -> char {
    if 'A' <= c <= 'Z' {
        ((c as u32) + 32) as char
    } else {
        c
    }
}

/// The result of `str::to_lowercase` (Unicode lower-case mapping) on `s`.
pub uninterp spec fn unicode_lowercase(s: Seq<char>) -> Seq<char>;

/// Calls `str::to_lowercase`. The contract names the result and states that on
/// ASCII input it maps `A`..`Z` to `a`..`z` and keeps every other character; the
/// Unicode mapping of other characters is not stated.
#[verifier::external_body]
pub fn to_lowercase(s: &str) -> (r: String)
    ensures
        r@ == unicode_lowercase(s@),
        vstd::utf8::is_ascii_chars(s@) ==> r@ == s@.map_values(|c: char| ascii_lower(c)),
{
    s.to_lowercase()
}

/// The result of `char::is_alphanumeric` (Unicode `Alphabetic` or `Numeric`).
pub uninterp spec fn unicode_alphanumeric(c: char) -> bool;

/// Calls `char::is_alphanumeric`. The contract names the result and states it for
/// ASCII characters (the letters and the decimal digits); the Unicode tables for
/// other characters are not stated.
#[verifier::external_body]
pub fn is_alphanumeric(c: char) -> (b: bool)
    ensures
        b == unicode_alphanumeric(c),
        (c as u32) < 128 ==> (b <==> ('a' <= c <= 'z' || 'A' <= c <= 'Z' || '0' <= c <= '9')),
{
    c.is_alphanumeric()
}

// ---------------------------------------------------------------------------
// Replacement of double spaces and maxima
// ---------------------------------------------------------------------------

/// `str::replace("  ", " ")`: each non-overlapping pair of spaces, left to right,
/// becomes one space.
pub open spec fn collapse_double_spaces(s: Seq<char>) -> Seq<char>
    decreases s.len(),
{
    if s.len() >= 2 && s[0] == ' ' && s[1] == ' ' {
        seq![' '] + collapse_double_spaces(s.skip(2))
    } else if s.len() == 0 {
        seq![]
    } else {
        seq![s[0]] + collapse_double_spaces(s.drop_first())
    }
}

/// `str::replace("  ", " ")` on the given characters.
pub fn collapse_spaces(s: &[char]) -> (r: Vec<char>)
    ensures
        r@ == collapse_double_spaces(s@),
{
    let mut r: Vec<char> = Vec::new();
    let mut i: usize = 0;
    assert(s@.skip(0) =~= s@);
    assert(r@ + collapse_double_spaces(s@) =~= collapse_double_spaces(s@));
    while i < s.len()
        invariant
            i <= s@.len(),
            r@ + collapse_double_spaces(s@.skip(i as int)) == collapse_double_spaces(s@),
        decreases s.len() - i,
    {
        let ghost t = s@.skip(i as int);
        if i + 1 < s.len() && s[i] == ' ' && s[i + 1] == ' ' {
            assert(t.skip(2) =~= s@.skip(i + 2));
            assert(r@.push(' ') + collapse_double_spaces(s@.skip(i + 2)) =~= r@ + (seq![' ']
                + collapse_double_spaces(t.skip(2))));
            r.push(' ');
            i = i + 2;
        } else {
            assert(t.drop_first() =~= s@.skip(i + 1));
            let c = s[i];
            assert(r@.push(c) + collapse_double_spaces(s@.skip(i + 1)) =~= r@ + (seq![c]
                + collapse_double_spaces(t.drop_first())));
            r.push(c);
            i = i + 1;
        }
    }
    assert(s@.skip(i as int) =~= Seq::<char>::empty());
    assert(r@ + Seq::<char>::empty() =~= r@);
    r
}

/// The largest element, or 0 for the empty sequence.
pub open spec fn max_nat(s: Seq<nat>) -> nat
    decreases s.len(),
{
    if s.len() == 0 {
        0
    } else {
        let m = max_nat(s.drop_last());
        if s.last() > m {
            s.last()
        } else {
            m
        }
    }
}

pub proof fn lemma_max_nat_push(s: Seq<nat>, x: nat)
    ensures
        max_nat(s.push(x)) == if x > max_nat(s) {
            x
        } else {
            max_nat(s)
        },
{
    assert(s.push(x).drop_last() =~= s);
}

pub proof fn lemma_max_nat_append(a: Seq<nat>, b: Seq<nat>)
    ensures
        max_nat(a + b) == if max_nat(b) > max_nat(a) {
            max_nat(b)
        } else {
            max_nat(a)
        },
    decreases b.len(),
{
    if b.len() > 0 {
        lemma_max_nat_append(a, b.drop_last());
        assert((a + b).drop_last() =~= a + b.drop_last());
    } else {
        assert(a + b =~= a);
    }
}

pub proof fn lemma_max_nat_bounds(s: Seq<nat>)
    ensures
        forall|k: int| 0 <= k < s.len() ==> #[trigger] s[k] <= max_nat(s),
        s.len() > 0 ==> exists|k: int| 0 <= k < s.len() && #[trigger] s[k] == max_nat(s),
    decreases s.len(),
{
    if s.len() > 0 {
        lemma_max_nat_bounds(s.drop_last());
        if s.last() <= max_nat(s.drop_last()) && s.len() > 1 {
            let k = choose|k: int| 0 <= k < s.len() - 1 && #[trigger] s.drop_last()[k] == max_nat(s.drop_last());
            assert(s[k] == s.drop_last()[k]);
        }
        assert forall|k: int| 0 <= k < s.len() implies #[trigger] s[k] <= max_nat(s) by {
            if k < s.len() - 1 {
                assert(s[k] == s.drop_last()[k]);
            }
        }
    }
}

} // verus!
