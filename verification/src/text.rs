//! Character-level text utilities with their mathematical meaning.
//!
//! Text is handled as sequences of `char`; every function here states its
//! result over the views (`Seq<char>`) of its inputs.
use vstd::prelude::*;

verus! {

broadcast use vstd::string::axiom_spec_iter;

// ── Specifications ───────────────────────────────────────────────

/// Unicode `White_Space` characters, the set that `char::is_whitespace` accepts.
pub open spec fn is_ws(c: char) -> bool {
    ||| c == '\t' || c == '\n' || c == '\u{0B}' || c == '\u{0C}' || c == '\r' || c == ' '
    ||| c == '\u{85}' || c == '\u{A0}' || c == '\u{1680}'
    ||| ('\u{2000}' <= c && c <= '\u{200A}')
    ||| c == '\u{2028}' || c == '\u{2029}' || c == '\u{202F}' || c == '\u{205F}' || c == '\u{3000}'
}

/// `s` without its leading whitespace.
pub open spec fn trim_start_spec(s: Seq<char>) -> Seq<char>
    decreases s.len(),
{
    if s.len() > 0 && is_ws(s[0]) {
        trim_start_spec(s.drop_first())
    } else {
        s
    }
}

/// `s` without its trailing whitespace.
pub open spec fn trim_end_spec(s: Seq<char>) -> Seq<char>
    decreases s.len(),
{
    if s.len() > 0 && is_ws(s.last()) {
        trim_end_spec(s.drop_last())
    } else {
        s
    }
}

/// `s` without leading and trailing whitespace.
pub open spec fn trim_spec(s: Seq<char>) -> Seq<char> {
    trim_end_spec(trim_start_spec(s))
}

/// `p` occurs in `s` starting at index `i`.
pub open spec fn occurs_at(s: Seq<char>, p: Seq<char>, i: int) -> bool {
    0 <= i && i + p.len() <= s.len() && s.subrange(i, i + p.len()) == p
}

/// `p` occurs somewhere in `s`.
pub open spec fn contains_spec(s: Seq<char>, p: Seq<char>) -> bool {
    exists|i: int| occurs_at(s, p, i)
}

/// The first index at or after `start` where `p` occurs in `s`.
pub open spec fn find_from_spec(s: Seq<char>, p: Seq<char>, start: int) -> Option<int>
    decreases s.len() + 1 - start,
{
    if start < 0 || start + p.len() > s.len() {
        None
    } else if occurs_at(s, p, start) {
        Some(start)
    } else {
        find_from_spec(s, p, start + 1)
    }
}

/// The pieces of `s[start..]` separated by the non-empty pattern `p`.
pub open spec fn split_from_spec(s: Seq<char>, p: Seq<char>, start: int) -> Seq<Seq<char>>
    decreases s.len() - start,
{
    if p.len() == 0 || start < 0 || start > s.len() {
        seq![s.subrange(start, s.len() as int)]
    } else {
        match find_from_spec(s, p, start) {
            Some(i) => if start <= i && i + p.len() <= s.len() {
                seq![s.subrange(start, i)] + split_from_spec(s, p, i + p.len())
            } else {
                seq![s.subrange(start, s.len() as int)]
            },
            None => seq![s.subrange(start, s.len() as int)],
        }
    }
}

/// The pieces of `s` separated by `p` (as `str::split` with a non-empty pattern).
pub open spec fn split_spec(s: Seq<char>, p: Seq<char>) -> Seq<Seq<char>> {
    split_from_spec(s, p, 0)
}

/// The parts joined with `sep` between consecutive parts.
pub open spec fn join_spec(parts: Seq<Seq<char>>, sep: Seq<char>) -> Seq<char>
    decreases parts.len(),
{
    if parts.len() == 0 {
        Seq::empty()
    } else if parts.len() == 1 {
        parts[0]
    } else {
        join_spec(parts.drop_last(), sep) + sep + parts.last()
    }
}

/// `s` without one trailing `'\r'`, if it has one.
pub open spec fn strip_cr(s: Seq<char>) -> Seq<char> {
    if s.len() > 0 && s.last() == '\r' {
        s.drop_last()
    } else {
        s
    }
}

/// The lines of `s` as `str::lines` yields them: split at `'\n'`, a `'\r'` before
/// a `'\n'` removed, no empty line after a final line ending.
pub open spec fn lines_spec(s: Seq<char>) -> Seq<Seq<char>> {
    let parts = split_spec(s, seq!['\n']);
    let n = parts.len();
    let count = if parts.last().len() == 0 { n - 1 } else { n as int };
    Seq::new(count as nat, |k: int| if k < n - 1 { strip_cr(parts[k]) } else { parts[k] })
}

/// ASCII lowercase of one character; other characters are unchanged.
pub open spec fn ascii_lower(c: char) -> char {
    if 'A' <= c && c <= 'Z' {
        ((c as u32) + 32) as char
    } else {
        c
    }
}

/// `a` and `b` are equal up to ASCII case.
pub open spec fn eq_ignore_ascii_case_spec(a: Seq<char>, b: Seq<char>) -> bool {
    a.len() == b.len() && forall|i: int| 0 <= i < a.len() ==> ascii_lower(a[i]) == ascii_lower(b[i])
}

/// `p` is a prefix of `s`.
pub open spec fn starts_with_spec(s: Seq<char>, p: Seq<char>) -> bool {
    p.len() <= s.len() && s.take(p.len() as int) == p
}

/// `p` is a suffix of `s`.
pub open spec fn ends_with_spec(s: Seq<char>, p: Seq<char>) -> bool {
    p.len() <= s.len() && s.skip(s.len() - p.len()) == p
}

/// The decimal digit for `d < 10`.
pub open spec fn digit_char(d: nat) -> char {
    (('0' as u32) + d) as char
}

/// Decimal rendering of `n`, without sign or leading zeros.
pub open spec fn decimal_spec(n: nat) -> Seq<char>
    decreases n,
{
    if n < 10 {
        seq![digit_char(n)]
    } else {
        decimal_spec(n / 10).push(digit_char(n % 10))
    }
}

/// Decimal rendering of a signed integer, with `-` for negative values.
pub open spec fn signed_decimal_spec(n: int) -> Seq<char> {
    if n < 0 {
        seq!['-'] + decimal_spec((-n) as nat)
    } else {
        decimal_spec(n as nat)
    }
}

/// `n` copies of `c`.
pub open spec fn repeat_spec(c: char, n: nat) -> Seq<char> {
    Seq::new(n, |i: int| c)
}

/// The character views of a sequence of character vectors.
pub open spec fn vviews(v: Seq<Vec<char>>) -> Seq<Seq<char>> {
    Seq::new(v.len(), |i: int| v[i]@)
}

/// Length of the UTF-8 encoding of `s`.
pub open spec fn byte_len(s: Seq<char>) -> nat {
    vstd::utf8::encode_utf8(s).len()
}

/// The encoding of a concatenation is the concatenation of the encodings.
pub proof fn lemma_encode_utf8_concat(a: Seq<char>, b: Seq<char>)
    ensures
        vstd::utf8::encode_utf8(a + b) == vstd::utf8::encode_utf8(a) + vstd::utf8::encode_utf8(b),
    decreases a.len(),
{
    if a.len() == 0 {
        assert(a + b =~= b);
        assert(vstd::utf8::encode_utf8(a) =~= Seq::<u8>::empty());
        assert(vstd::utf8::encode_utf8(a) + vstd::utf8::encode_utf8(b) =~= vstd::utf8::encode_utf8(b));
    } else {
        assert((a + b).drop_first() =~= a.drop_first() + b);
        assert((a + b)[0] == a[0]);
        lemma_encode_utf8_concat(a.drop_first(), b);
        let e0 = vstd::utf8::encode_scalar(a[0] as u32);
        assert(e0 + (vstd::utf8::encode_utf8(a.drop_first()) + vstd::utf8::encode_utf8(b)) =~= (e0
            + vstd::utf8::encode_utf8(a.drop_first())) + vstd::utf8::encode_utf8(b));
    }
}

/// ASCII characters take one byte each.
pub proof fn lemma_ascii_byte_len(s: Seq<char>)
    requires
        vstd::utf8::is_ascii_chars(s),
    ensures
        byte_len(s) == s.len(),
{
    vstd::utf8::is_ascii_chars_encode_utf8(s);
}

/// Length in bytes of a string slice (`str::len`).
pub fn byte_len_exec(s: &str) -> (r: usize)
    ensures
        r == byte_len(s@),
{
    let b = s.as_bytes();
    proof {
        vstd::slice::axiom_spec_len(b);
    }
    b.len()
}

// ── Conversions ──────────────────────────────────────────────────

/// The characters of a string slice.
pub fn to_chars(s: &str) -> (r: Vec<char>)
    ensures
        r@ == s@,
{
    let mut out: Vec<char> = Vec::new();
    for c in it: s.chars()
        invariant
            out@ == it.seq().take(it.index() as int),
    {
        out.push(c);
    }
    out
}

/// `String` made of the given characters (std's `FromIterator<char>`).
#[verifier::external_body]
pub fn from_chars(v: &[char]) -> (r: String)
    ensures
        r@ == v@,
{
    v.iter().collect()
}

/// Lowercase by Unicode rules (std's `str::to_lowercase`).
pub uninterp spec fn unicode_lowercase(s: Seq<char>) -> Seq<char>;

/// Wraps `str::to_lowercase`; its result is named by `unicode_lowercase`.
#[verifier::external_body]
pub fn to_lowercase(s: &str) -> (r: String)
    ensures
        r@ == unicode_lowercase(s@),
{
    s.to_lowercase()
}

/// A copy of a `String`.
pub fn clone_string(s: &String) -> (r: String)
    ensures
        r@ == s@,
{
    s.clone()
}

/// A copy of an optional `String`.
pub fn clone_opt_string(s: &Option<String>) -> (r: Option<String>)
    ensures
        r == *s,
{
    match s {
        Some(x) => Some(x.clone()),
        None => None,
    }
}

/// A copy of a list of strings.
pub fn clone_strings(v: &Vec<String>) -> (r: Vec<String>)
    ensures
        r@ == v@,
{
    v.clone()
}

/// Appends a character sequence to a vector of characters.
pub fn extend_chars(out: &mut Vec<char>, s: &[char])
    ensures
        final(out)@ == old(out)@ + s@,
{
    let mut i: usize = 0;
    while i < s.len()
        invariant
            i <= s.len(),
            out@ == old(out)@ + s@.take(i as int),
        decreases s.len() - i,
    {
        out.push(s[i]);
        i = i + 1;
        assert(s@.take(i as int) == s@.take((i - 1) as int).push(s@[i - 1]));
    }
    assert(s@.take(s.len() as int) == s@);
}

/// Appends the characters of a string slice.
pub fn extend_str(out: &mut Vec<char>, s: &str)
    ensures
        final(out)@ == old(out)@ + s@,
{
    let v = to_chars(s);
    extend_chars(out, v.as_slice());
}

/// `n` copies of `c`.
pub fn repeat_char(c: char, n: usize) -> (r: Vec<char>)
    ensures
        r@ == repeat_spec(c, n as nat),
{
    let mut out: Vec<char> = Vec::new();
    let mut i: usize = 0;
    while i < n
        invariant
            i <= n,
            out@ == repeat_spec(c, i as nat),
        decreases n - i,
    {
        out.push(c);
        i = i + 1;
        assert(out@ =~= repeat_spec(c, i as nat));
    }
    out
}

// ── Comparison ───────────────────────────────────────────────────

/// Equality of two character slices.
pub fn chars_eq(a: &[char], b: &[char]) -> (r: bool)
    ensures
        r == (a@ == b@),
{
    if a.len() != b.len() {
        return false;
    }
    let mut i: usize = 0;
    while i < a.len()
        invariant
            a.len() == b.len(),
            i <= a.len(),
            forall|k: int| 0 <= k < i ==> a@[k] == b@[k],
        decreases a.len() - i,
    {
        if a[i] != b[i] {
            return false;
        }
        i = i + 1;
    }
    assert(a@ =~= b@);
    true
}

/// Equality of two string slices.
pub fn str_eq(a: &str, b: &str) -> (r: bool)
    ensures
        r == (a@ == b@),
{
    let x = to_chars(a);
    let y = to_chars(b);
    chars_eq(x.as_slice(), y.as_slice())
}

/// `p` occurs in `s` at index `i`.
pub fn occurs_at_exec(s: &[char], p: &[char], i: usize) -> (r: bool)
    ensures
        r == occurs_at(s@, p@, i as int),
{
    if i > s.len() || p.len() > s.len() - i {
        return false;
    }
    let mut k: usize = 0;
    while k < p.len()
        invariant
            i + p.len() <= s.len(),
            k <= p.len(),
            forall|j: int| 0 <= j < k ==> s@[i + j] == p@[j],
        decreases p.len() - k,
    {
        if s[i + k] != p[k] {
            assert(s@.subrange(i as int, i + p.len())[k as int] != p@[k as int]);
            return false;
        }
        k = k + 1;
    }
    assert(s@.subrange(i as int, i + p.len()) =~= p@);
    true
}

/// `p` is a prefix of `s`.
pub fn starts_with(s: &[char], p: &[char]) -> (r: bool)
    ensures
        r == starts_with_spec(s@, p@),
{
    let r = occurs_at_exec(s, p, 0);
    assert(s@.subrange(0, p@.len() as int) == s@.take(p@.len() as int));
    r
}

/// `p` is a suffix of `s`.
pub fn ends_with(s: &[char], p: &[char]) -> (r: bool)
    ensures
        r == ends_with_spec(s@, p@),
{
    if p.len() > s.len() {
        return false;
    }
    let r = occurs_at_exec(s, p, s.len() - p.len());
    assert(s@.subrange(s.len() - p.len(), s.len() as int) == s@.skip(s.len() - p.len()));
    r
}

/// The first index at or after `start` where `p` occurs in `s`.
pub fn find_from(s: &[char], p: &[char], start: usize) -> (r: Option<usize>)
    ensures
        match r {
            Some(i) => find_from_spec(s@, p@, start as int) == Some(i as int),
            None => find_from_spec(s@, p@, start as int) is None,
        },
{
    if p.len() > s.len() {
        assert(find_from_spec(s@, p@, start as int) is None);
        return None;
    }
    let last = s.len() - p.len();
    if start > last {
        return None;
    }
    let mut j = start;
    loop
        invariant
            p.len() <= s.len(),
            last == s.len() - p.len(),
            start <= j <= last,
            find_from_spec(s@, p@, start as int) == find_from_spec(s@, p@, j as int),
        decreases last - j,
    {
        if occurs_at_exec(s, p, j) {
            return Some(j);
        }
        if j == last {
            assert(find_from_spec(s@, p@, (j + 1) as int) is None);
            return None;
        }
        j = j + 1;
    }
}

/// `p` occurs in `s`.
pub fn contains(s: &[char], p: &[char]) -> (r: bool)
    ensures
        r == contains_spec(s@, p@),
{
    proof { lemma_find_from_complete(s@, p@, 0); }
    match find_from(s, p, 0) {
        Some(i) => {
            proof { lemma_find_from_sound(s@, p@, 0); }
            true
        },
        None => false,
    }
}

/// `contains` over string slices.
pub fn str_contains(s: &str, p: &str) -> (r: bool)
    ensures
        r == contains_spec(s@, p@),
{
    let a = to_chars(s);
    let b = to_chars(p);
    contains(a.as_slice(), b.as_slice())
}

/// What `find_from_spec` returns is an occurrence at or after `start`.
pub proof fn lemma_find_from_sound(s: Seq<char>, p: Seq<char>, start: int)
    ensures
        find_from_spec(s, p, start) matches Some(i) ==> start <= i && occurs_at(s, p, i),
    decreases s.len() + 1 - start,
{
    if start < 0 || start + p.len() > s.len() {
    } else if occurs_at(s, p, start) {
    } else {
        lemma_find_from_sound(s, p, start + 1);
    }
}

/// `find_from_spec` finds the first occurrence at or after `start`.
pub proof fn lemma_find_from_complete(s: Seq<char>, p: Seq<char>, start: int)
    ensures
        start >= 0 ==> (find_from_spec(s, p, start) is None <==> forall|i: int|
            start <= i ==> !occurs_at(s, p, i)),
        start >= 0 ==> (find_from_spec(s, p, start) matches Some(i) ==> forall|k: int|
            start <= k < i ==> !occurs_at(s, p, k)),
        start == 0 ==> (find_from_spec(s, p, start) is None <==> !contains_spec(s, p)),
    decreases s.len() + 1 - start,
{
    if start < 0 || start + p.len() > s.len() {
    } else if occurs_at(s, p, start) {
    } else {
        lemma_find_from_complete(s, p, start + 1);
        assert forall|i: int| start <= i && i < start + 1 implies !occurs_at(s, p, i) by {}
    }
}

/// Equality up to ASCII case.
pub fn eq_ignore_ascii_case(a: &[char], b: &[char]) -> (r: bool)
    ensures
        r == eq_ignore_ascii_case_spec(a@, b@),
{
    if a.len() != b.len() {
        return false;
    }
    let mut i: usize = 0;
    while i < a.len()
        invariant
            a.len() == b.len(),
            i <= a.len(),
            forall|k: int| 0 <= k < i ==> ascii_lower(a@[k]) == ascii_lower(b@[k]),
        decreases a.len() - i,
    {
        if ascii_lower_exec(a[i]) != ascii_lower_exec(b[i]) {
            return false;
        }
        i = i + 1;
    }
    true
}

/// ASCII lowercase of one character.
pub fn ascii_lower_exec(c: char) -> (r: char)
    ensures
        r == ascii_lower(c),
{
    if 'A' <= c && c <= 'Z' {
        let u: u8 = (c as u8) + 32;
        (u as char)
    } else {
        c
    }
}

/// Whitespace test with the meaning of `char::is_whitespace`.
pub fn is_ws_exec(c: char) -> (r: bool)
    ensures
        r == is_ws(c),
{
    c == '\t' || c == '\n' || c == '\u{0B}' || c == '\u{0C}' || c == '\r' || c == ' '
        || c == '\u{85}' || c == '\u{A0}' || c == '\u{1680}' || ('\u{2000}' <= c && c
        <= '\u{200A}') || c == '\u{2028}' || c == '\u{2029}' || c == '\u{202F}' || c == '\u{205F}'
        || c == '\u{3000}'
}

// ── Slicing ──────────────────────────────────────────────────────

/// The characters `s[lo..hi]`.
pub fn sub_chars(s: &[char], lo: usize, hi: usize) -> (r: Vec<char>)
    requires
        lo <= hi <= s.len(),
    ensures
        r@ == s@.subrange(lo as int, hi as int),
{
    let mut out: Vec<char> = Vec::new();
    let mut i = lo;
    while i < hi
        invariant
            lo <= i <= hi <= s.len(),
            out@ == s@.subrange(lo as int, i as int),
        decreases hi - i,
    {
        out.push(s[i]);
        i = i + 1;
        assert(out@ =~= s@.subrange(lo as int, i as int));
    }
    out
}

/// Index of the first non-whitespace character (or `s.len()`).
fn trim_start_index(s: &[char]) -> (r: usize)
    ensures
        r <= s.len(),
        trim_start_spec(s@) == s@.skip(r as int),
{
    let mut i: usize = 0;
    assert(s@.skip(0) =~= s@);
    while i < s.len() && is_ws_exec(s[i])
        invariant
            i <= s.len(),
            trim_start_spec(s@) == trim_start_spec(s@.skip(i as int)),
        decreases s.len() - i,
    {
        assert(s@.skip(i as int).drop_first() =~= s@.skip(i + 1));
        i = i + 1;
    }
    i
}

/// Index just after the last non-whitespace character (or 0).
fn trim_end_index(s: &[char]) -> (r: usize)
    ensures
        r <= s.len(),
        trim_end_spec(s@) == s@.take(r as int),
{
    let mut i: usize = s.len();
    assert(s@.take(s.len() as int) =~= s@);
    while i > 0 && is_ws_exec(s[i - 1])
        invariant
            i <= s.len(),
            trim_end_spec(s@) == trim_end_spec(s@.take(i as int)),
        decreases i,
    {
        assert(s@.take(i as int).drop_last() =~= s@.take(i - 1));
        i = i - 1;
    }
    i
}

/// `s` without leading whitespace.
pub fn trim_start(s: &[char]) -> (r: Vec<char>)
    ensures
        r@ == trim_start_spec(s@),
{
    let i = trim_start_index(s);
    let r = sub_chars(s, i, s.len());
    assert(r@ =~= s@.skip(i as int));
    r
}

/// `s` without trailing whitespace.
pub fn trim_end(s: &[char]) -> (r: Vec<char>)
    ensures
        r@ == trim_end_spec(s@),
{
    let i = trim_end_index(s);
    let r = sub_chars(s, 0, i);
    assert(r@ =~= s@.take(i as int));
    r
}

/// `s` without leading and trailing whitespace.
pub fn trim(s: &[char]) -> (r: Vec<char>)
    ensures
        r@ == trim_spec(s@),
{
    let a = trim_start(s);
    trim_end(a.as_slice())
}

/// `s` without leading and trailing whitespace, for string slices.
pub fn trim_str(s: &str) -> (r: Vec<char>)
    ensures
        r@ == trim_spec(s@),
{
    let v = to_chars(s);
    trim(v.as_slice())
}

// ── Splitting and joining ────────────────────────────────────────

/// The pieces of `s` separated by the non-empty pattern `p`.
pub fn split(s: &[char], p: &[char]) -> (r: Vec<Vec<char>>)
    requires
        p.len() > 0,
    ensures
        vviews(r@) == split_spec(s@, p@),
        r.len() >= 1,
{
    let mut out: Vec<Vec<char>> = Vec::new();
    let mut start: usize = 0;
    loop
        invariant
            p.len() > 0,
            start <= s.len(),
            vviews(out@) + split_from_spec(s@, p@, start as int) == split_spec(s@, p@),
        decreases s.len() - start,
    {
        proof { lemma_find_from_sound(s@, p@, start as int); }
        match find_from(s, p, start) {
            Some(i) => {
                let piece = sub_chars(s, start, i);
                let ghost old_out = vviews(out@);
                out.push(piece);
                assert(vviews(out@) =~= old_out.push(piece@));
                assert(split_from_spec(s@, p@, start as int) == seq![s@.subrange(start as int, i as int)]
                    + split_from_spec(s@, p@, i + p@.len()));
                assert(vviews(out@) + split_from_spec(s@, p@, (i + p.len()) as int)
                    =~= old_out + split_from_spec(s@, p@, start as int));
                start = i + p.len();
            },
            None => {
                let piece = sub_chars(s, start, s.len());
                let ghost old_out = vviews(out@);
                out.push(piece);
                assert(vviews(out@) =~= old_out.push(piece@));
                assert(vviews(out@) =~= old_out + split_from_spec(s@, p@, start as int));
                return out;
            },
        }
    }
}

/// `s` split at `'\n'` into its lines, as `str::lines` does.
pub fn lines(s: &[char]) -> (r: Vec<Vec<char>>)
    ensures
        vviews(r@) == lines_spec(s@),
{
    let nl: [char; 1] = ['\n'];
    let nl_slice: &[char] = &nl;
    assert(nl_slice@ =~= seq!['\n']);
    let parts = split(s, nl_slice);
    let ghost pv = vviews(parts@);
    let ghost ls = lines_spec(s@);
    let n = parts.len();
    let count = if parts[n - 1].len() == 0 { n - 1 } else { n };
    assert(ls.len() == count);
    let mut out: Vec<Vec<char>> = Vec::new();
    let mut k: usize = 0;
    while k < count
        invariant
            pv == split_spec(s@, seq!['\n']),
            pv == vviews(parts@),
            ls == lines_spec(s@),
            ls.len() == count,
            n == parts.len(),
            n >= 1,
            count <= n,
            k <= count,
            vviews(out@) =~= ls.take(k as int),
        decreases count - k,
    {
        let part = &parts[k];
        assert(part@ == pv[k as int]);
        assert(ls[k as int] == (if k < n - 1 { strip_cr(pv[k as int]) } else { pv[k as int] }));
        let line = if k + 1 < n && part.len() > 0 && part[part.len() - 1] == '\r' {
            sub_chars(part.as_slice(), 0, part.len() - 1)
        } else {
            sub_chars(part.as_slice(), 0, part.len())
        };
        proof {
            assert(part@.subrange(0, part@.len() as int) =~= part@);
            if part@.len() > 0 {
                assert(part@.subrange(0, part@.len() - 1) =~= part@.drop_last());
            }
        }
        assert(line@ == ls[k as int]);
        let ghost old_out = vviews(out@);
        out.push(line);
        assert(vviews(out@) =~= old_out.push(line@));
        k = k + 1;
    }
    out
}

/// The parts joined with `sep` between consecutive parts.
pub fn join(parts: &Vec<Vec<char>>, sep: &[char]) -> (r: Vec<char>)
    ensures
        r@ == join_spec(vviews(parts@), sep@),
{
    let ghost pv = vviews(parts@);
    let mut out: Vec<char> = Vec::new();
    let mut i: usize = 0;
    while i < parts.len()
        invariant
            pv == vviews(parts@),
            i <= parts.len(),
            out@ == join_spec(pv.take(i as int), sep@),
        decreases parts.len() - i,
    {
        assert(parts[i as int]@ == pv[i as int]);
        if i > 0 {
            extend_chars(&mut out, sep);
        }
        extend_chars(&mut out, parts[i].as_slice());
        i = i + 1;
        assert(pv.take(i as int).drop_last() =~= pv.take(i - 1));
    }
    assert(pv.take(parts.len() as int) =~= pv);
    out
}

// ── Numbers ──────────────────────────────────────────────────────

/// Decimal rendering of `n`.
pub fn decimal(n: u64) -> (r: Vec<char>)
    ensures
        r@ == decimal_spec(n as nat),
    decreases n,
{
    let d: u8 = (n % 10) as u8;
    let c: char = (48u8 + d) as char;
    if n < 10 {
        let mut out: Vec<char> = Vec::new();
        out.push(c);
        proof {
            assert(out@ =~= seq![digit_char(n as nat)]);
        }
        out
    } else {
        let mut out = decimal(n / 10);
        out.push(c);
        out
    }
}

/// Decimal rendering of a signed integer.
pub fn signed_decimal(n: i64) -> (r: Vec<char>)
    ensures
        r@ == signed_decimal_spec(n as int),
{
    if n < 0 {
        let m: u64 = if n == i64::MIN { 9223372036854775808u64 } else { (-n) as u64 };
        let mut out: Vec<char> = Vec::new();
        out.push('-');
        let d = decimal(m);
        extend_chars(&mut out, d.as_slice());
        out
    } else {
        decimal(n as u64)
    }
}

// ── Reading integers ─────────────────────────────────────────────

/// An ASCII digit.
pub open spec fn is_digit(c: char) -> bool {
    '0' <= c && c <= '9'
}

/// Every character is an ASCII digit.
pub open spec fn all_digits(s: Seq<char>) -> bool {
    forall|i: int| 0 <= i < s.len() ==> is_digit(#[trigger] s[i])
}

/// The value of a string of decimal digits.
pub open spec fn digits_value(s: Seq<char>) -> nat
    decreases s.len(),
{
    if s.len() == 0 {
        0
    } else {
        digits_value(s.drop_last()) * 10 + ((s.last() as int) - ('0' as int)) as nat
    }
}

/// The smaller of two numbers.
pub open spec fn min_int(a: int, b: int) -> int {
    if a < b {
        a
    } else {
        b
    }
}

/// What `str::parse::<i64>` reads: an optional `+` or `-`, then one or more
/// ASCII digits, whose value must fit.
pub open spec fn parse_i64_spec(s: Seq<char>) -> Option<i64> {
    let signed = s.len() > 0 && (s[0] == '+' || s[0] == '-');
    let body = if signed {
        s.drop_first()
    } else {
        s
    };
    let v: int = if signed && s[0] == '-' {
        -(digits_value(body) as int)
    } else {
        digits_value(body) as int
    };
    if body.len() > 0 && all_digits(body) && i64::MIN <= v && v <= i64::MAX {
        Some(v as i64)
    } else {
        None
    }
}

/// What `str::parse::<usize>` reads: an optional `+`, then one or more ASCII
/// digits, whose value must fit.
pub open spec fn parse_usize_spec(s: Seq<char>) -> Option<usize> {
    let body = if s.len() > 0 && s[0] == '+' {
        s.drop_first()
    } else {
        s
    };
    if body.len() > 0 && all_digits(body) && digits_value(body) <= usize::MAX {
        Some(digits_value(body) as usize)
    } else {
        None
    }
}

/// The value of the digits `s[lo..]`, but at most `cap`; `None` unless they
/// are one or more ASCII digits.
fn capped_digits(s: &[char], lo: usize, cap: u128) -> (r: Option<u128>)
    requires
        lo <= s.len(),
        0 < cap < 0x1_0000_0000_0000_0000_0000_0000_0000,
    ensures
        match r {
            Some(v) => s@.skip(lo as int).len() > 0 && all_digits(s@.skip(lo as int)) && v == min_int(
                digits_value(s@.skip(lo as int)) as int,
                cap as int,
            ),
            None => !(s@.skip(lo as int).len() > 0 && all_digits(s@.skip(lo as int))),
        },
{
    if lo == s.len() {
        return None;
    }
    let mut acc: u128 = 0;
    let mut i = lo;
    assert(s@.subrange(lo as int, lo as int).len() == 0);
    while i < s.len()
        invariant
            lo <= i <= s.len(),
            0 < cap < 0x1_0000_0000_0000_0000_0000_0000_0000,
            acc <= cap,
            all_digits(s@.subrange(lo as int, i as int)),
            acc == min_int(digits_value(s@.subrange(lo as int, i as int)) as int, cap as int),
        decreases s.len() - i,
    {
        let c = s[i];
        if !('0' <= c && c <= '9') {
            assert(s@.skip(lo as int)[i - lo] == c);
            return None;
        }
        let d = ((c as u32) - ('0' as u32)) as u128;
        let next = acc * 10 + d;
        let ghost prev = s@.subrange(lo as int, i as int);
        let ghost cur = s@.subrange(lo as int, i + 1);
        assert(cur.drop_last() =~= prev);
        assert(cur.last() == c);
        assert(digits_value(cur) == digits_value(prev) * 10 + d);
        acc = if next > cap {
            cap
        } else {
            next
        };
        assert(all_digits(cur)) by {
            assert forall|j: int| 0 <= j < cur.len() implies is_digit(#[trigger] cur[j]) by {
                if j < prev.len() {
                    assert(cur[j] == prev[j]);
                }
            }
        }
        i = i + 1;
    }
    assert(s@.subrange(lo as int, s.len() as int) =~= s@.skip(lo as int));
    Some(acc)
}

/// Reads a signed 64-bit integer as `str::parse::<i64>` does.
pub fn parse_i64(s: &str) -> (r: Option<i64>)
    ensures
        r == parse_i64_spec(s@),
{
    let cs = to_chars(s);
    if cs.len() == 0 {
        return None;
    }
    let signed = cs[0] == '+' || cs[0] == '-';
    let neg = cs[0] == '-';
    let lo: usize = if signed {
        1
    } else {
        0
    };
    assert(cs@.skip(1) =~= cs@.drop_first());
    assert(cs@.skip(0) =~= cs@);
    match capped_digits(cs.as_slice(), lo, 9223372036854775809u128) {
        None => None,
        Some(v) => {
            if neg {
                if v <= 9223372036854775808u128 {
                    if v == 9223372036854775808u128 {
                        Some(i64::MIN)
                    } else {
                        Some(-(v as i64))
                    }
                } else {
                    None
                }
            } else if v <= 9223372036854775807u128 {
                Some(v as i64)
            } else {
                None
            }
        },
    }
}

/// Reads an unsigned machine-size integer as `str::parse::<usize>` does.
pub fn parse_usize(s: &str) -> (r: Option<usize>)
    ensures
        r == parse_usize_spec(s@),
{
    let cs = to_chars(s);
    if cs.len() == 0 {
        return None;
    }
    let lo: usize = if cs[0] == '+' {
        1
    } else {
        0
    };
    assert(cs@.skip(1) =~= cs@.drop_first());
    assert(cs@.skip(0) =~= cs@);
    let cap: u128 = (usize::MAX as u128) + 1;
    match capped_digits(cs.as_slice(), lo, cap) {
        None => None,
        Some(v) => {
            if v <= usize::MAX as u128 {
                Some(v as usize)
            } else {
                None
            }
        },
    }
}

} // verus!
