//! Character-level text utilities.
//!
//! Text is modelled as `Seq<char>`. Executable code works on `Vec<char>`,
//! with `chars_of` and `string_of` at the boundary to `str` and `String`.

use vstd::prelude::*;

verus! {

/// `String::push` appends one character at the end of the string.
pub assume_specification[ String::push ](s: &mut String, c: char)
    ensures
        final(s)@ == old(s)@.push(c),
;

// ---------------------------------------------------------------------------
// Models
// ---------------------------------------------------------------------------

/// `pat` occurs in `s` starting at position `i`.
pub open spec fn matches_at(s: Seq<char>, pat: Seq<char>, i: int) -> bool {
    &&& 0 <= i
    &&& i + pat.len() <= s.len()
    &&& s.subrange(i, i + pat.len()) == pat
}

/// `pat` occurs somewhere in `s`.
pub open spec fn contains(s: Seq<char>, pat: Seq<char>) -> bool {
    exists|i: int| matches_at(s, pat, i)
}

/// `s` begins with `pat`.
pub open spec fn starts_with(s: Seq<char>, pat: Seq<char>) -> bool {
    matches_at(s, pat, 0)
}

/// `s` ends with `pat`.
pub open spec fn ends_with(s: Seq<char>, pat: Seq<char>) -> bool {
    matches_at(s, pat, s.len() - pat.len())
}

/// The position of the first occurrence of `pat` in `s` at or after `from`.
pub open spec fn first_match_from(s: Seq<char>, pat: Seq<char>, from: int) -> Option<int>
    decreases s.len() - from,
{
    if from < 0 || from + pat.len() > s.len() {
        None
    } else if matches_at(s, pat, from) {
        Some(from)
    } else if from >= s.len() {
        None
    } else {
        first_match_from(s, pat, from + 1)
    }
}

/// The position of the first occurrence of `pat` in `s`.
pub open spec fn first_match(s: Seq<char>, pat: Seq<char>) -> Option<int> {
    first_match_from(s, pat, 0)
}

/// The position of the first occurrence of the character `c` in `s`.
pub open spec fn first_char(s: Seq<char>, c: char) -> Option<int> {
    first_match(s, seq![c])
}

/// An ASCII decimal digit.
pub open spec fn is_digit(c: char) -> bool {
    '0' <= c && c <= '9'
}

/// The value of an ASCII decimal digit.
pub open spec fn digit_value(c: char) -> nat
    recommends
        is_digit(c),
{
    (c as u32 - '0' as u32) as nat
}

/// The ASCII digit that stands for `d`.
pub open spec fn digit_char(d: nat) -> char
    recommends
        d < 10,
{
    (('0' as u8) + (d as u8)) as char
}

/// `c` with an ASCII capital letter replaced by its small letter.
pub open spec fn lower_ascii(c: char) -> char {
    if 'A' <= c && c <= 'Z' {
        ((c as u8) + 32u8) as char
    } else {
        c
    }
}

/// `s` with every ASCII capital letter replaced by its small letter.
pub open spec fn lowered(s: Seq<char>) -> Seq<char> {
    Seq::new(s.len(), |i: int| lower_ascii(s[i]))
}

/// A control code: U+0000 to U+001F and U+007F to U+009F.
pub open spec fn is_control(c: char) -> bool {
    c as u32 <= 0x1f || (0x7f <= c as u32 && c as u32 <= 0x9f)
}

/// A white-space character: the tab to carriage-return range, the space,
/// the next-line control, and the Unicode space separators and line and
/// paragraph separators.
pub open spec fn is_whitespace(c: char) -> bool {
    let n = c as u32;
    ||| (0x09 <= n && n <= 0x0d)
    ||| n == 0x20
    ||| n == 0x85
    ||| n == 0xa0
    ||| n == 0x1680
    ||| (0x2000 <= n && n <= 0x200a)
    ||| n == 0x2028
    ||| n == 0x2029
    ||| n == 0x202f
    ||| n == 0x205f
    ||| n == 0x3000
}

/// The number of leading characters of `s` that satisfy `p`.
pub open spec fn leading_run(s: Seq<char>, p: spec_fn(char) -> bool) -> nat
    decreases s.len(),
{
    if s.len() > 0 && p(s[0]) {
        1 + leading_run(s.drop_first(), p)
    } else {
        0
    }
}

/// The number of trailing characters of `s` that satisfy `p`.
pub open spec fn trailing_run(s: Seq<char>, p: spec_fn(char) -> bool) -> nat
    decreases s.len(),
{
    if s.len() > 0 && p(s.last()) {
        1 + trailing_run(s.drop_last(), p)
    } else {
        0
    }
}

/// `s` without its trailing characters that satisfy `p`.
pub open spec fn strip_end(s: Seq<char>, p: spec_fn(char) -> bool) -> Seq<char> {
    s.subrange(0, s.len() - trailing_run(s, p))
}

/// `s` without its leading characters that satisfy `p`.
pub open spec fn strip_start(s: Seq<char>, p: spec_fn(char) -> bool) -> Seq<char> {
    s.subrange(leading_run(s, p) as int, s.len() as int)
}

/// The predicate that holds of white-space characters.
pub open spec fn whitespace() -> spec_fn(char) -> bool {
    |c: char| is_whitespace(c)
}

/// The predicate that holds of the character `c` alone.
pub open spec fn exactly(c: char) -> spec_fn(char) -> bool {
    |x: char| x == c
}

/// `s` without leading and trailing white space.
pub open spec fn trimmed(s: Seq<char>) -> Seq<char> {
    strip_end(strip_start(s, whitespace()), whitespace())
}

/// `s` without its trailing occurrences of the character `c`.
pub open spec fn strip_end_char(s: Seq<char>, c: char) -> Seq<char> {
    strip_end(s, exactly(c))
}

/// The decimal digits of `n`, most significant first, without leading
/// zeros; `"0"` for zero.
pub open spec fn decimal(n: nat) -> Seq<char>
    decreases n,
{
    if n < 10 {
        seq![digit_char(n)]
    } else {
        decimal(n / 10).push(digit_char(n % 10))
    }
}

/// The decimal digits of `n`, with a minus sign before them where `n` is
/// negative.
pub open spec fn signed_decimal(n: int) -> Seq<char> {
    if n < 0 {
        seq!['-'] + decimal((-n) as nat)
    } else {
        decimal(n as nat)
    }
}

/// The number that a run of decimal digits stands for; zero for the empty
/// run.
pub open spec fn digits_value(s: Seq<char>) -> nat
    decreases s.len(),
{
    if s.len() == 0 {
        0
    } else {
        digits_value(s.drop_last()) * 10 + digit_value(s.last())
    }
}

/// The texts of a vector of strings.
pub open spec fn texts(v: Seq<String>) -> Seq<Seq<char>> {
    Seq::new(v.len(), |i: int| v[i]@)
}

/// The characters of an optional string.
pub open spec fn text_model(t: Option<String>) -> Option<Seq<char>> {
    match t {
        Some(s) => Some(s@),
        None => None,
    }
}

/// Every character of `s` is a decimal digit.
pub open spec fn all_digits(s: Seq<char>) -> bool {
    forall|i: int| 0 <= i < s.len() ==> is_digit(#[trigger] s[i])
}

// ---------------------------------------------------------------------------
// Lemmas
// ---------------------------------------------------------------------------

/// `first_match_from` finds the least match at or after `from`, and finds
/// none exactly when there is none.
pub proof fn lemma_first_match_from(s: Seq<char>, pat: Seq<char>, from: int)
    requires
        0 <= from,
    ensures
        match first_match_from(s, pat, from) {
            Some(i) => from <= i && matches_at(s, pat, i) && forall|j: int|
                from <= j < i ==> !matches_at(s, pat, j),
            None => forall|j: int| from <= j ==> !matches_at(s, pat, j),
        },
    decreases s.len() - from,
{
    if from + pat.len() > s.len() {
    } else if matches_at(s, pat, from) {
    } else if from >= s.len() {
        assert(s.subrange(from, from + pat.len()) =~= pat);
    } else {
        lemma_first_match_from(s, pat, from + 1);
    }
}

/// `pat` occurs in `s` exactly when `first_match` finds a position.
pub proof fn lemma_contains_first_match(s: Seq<char>, pat: Seq<char>)
    ensures
        contains(s, pat) <==> first_match(s, pat) is Some,
{
    lemma_first_match_from(s, pat, 0);
}

/// The trailing run of `s` is at most as long as `s`.
pub proof fn lemma_trailing_run_bound(s: Seq<char>, p: spec_fn(char) -> bool)
    ensures
        trailing_run(s, p) <= s.len(),
    decreases s.len(),
{
    if s.len() > 0 && p(s.last()) {
        lemma_trailing_run_bound(s.drop_last(), p);
    }
}

/// A run that ends at the end of `s`, is made of characters satisfying `p`
/// and cannot be extended to the left is the trailing run.
pub proof fn lemma_trailing_run_unique(s: Seq<char>, p: spec_fn(char) -> bool, k: int)
    requires
        0 <= k <= s.len(),
        forall|i: int| k <= i < s.len() ==> p(#[trigger] s[i]),
        k > 0 ==> !p(s[k - 1]),
    ensures
        trailing_run(s, p) == s.len() - k,
    decreases s.len(),
{
    if s.len() > 0 && p(s.last()) {
        let t = s.drop_last();
        assert(k < s.len());
        assert forall|i: int| k <= i < t.len() implies p(#[trigger] t[i]) by {
            assert(t[i] == s[i]);
        }
        if k > 0 {
            assert(t[k - 1] == s[k - 1]);
        }
        lemma_trailing_run_unique(t, p, k);
    }
}

/// A run that starts at the start of `s`, is made of characters satisfying
/// `p` and cannot be extended to the right is the leading run.
pub proof fn lemma_leading_run_unique(s: Seq<char>, p: spec_fn(char) -> bool, k: int)
    requires
        0 <= k <= s.len(),
        forall|i: int| 0 <= i < k ==> p(#[trigger] s[i]),
        k < s.len() ==> !p(s[k]),
    ensures
        leading_run(s, p) == k,
    decreases s.len(),
{
    if s.len() > 0 && p(s[0]) {
        let t = s.drop_first();
        assert(k > 0);
        assert forall|i: int| 0 <= i < k - 1 implies p(#[trigger] t[i]) by {
            assert(t[i] == s[i + 1]);
        }
        if k - 1 < t.len() {
            assert(t[k - 1] == s[k]);
        }
        lemma_leading_run_unique(t, p, k - 1);
    }
}

// ---------------------------------------------------------------------------
// Conversions
// ---------------------------------------------------------------------------

/// The characters of `s`, in order.
pub fn chars_of(s: &str) -> (v: Vec<char>)
    ensures
        v@ == s@,
{
    let mut v: Vec<char> = Vec::new();
    for c in it: s.chars()
        invariant
            it.seq() == s@,
            v@ == s@.take(it.index()),
    {
        v.push(c);
        assert(v@ =~= s@.take(it.index() + 1));
    }
    assert(s@.take(s@.len() as int) =~= s@);
    v
}

/// The string whose characters are those of `v`, in order.
pub fn string_of(v: &Vec<char>) -> (s: String)
    ensures
        s@ == v@,
{
    let mut s = String::new();
    let mut i: usize = 0;
    while i < v.len()
        invariant
            i <= v.len(),
            s@ == v@.subrange(0, i as int),
        decreases v.len() - i,
    {
        s.push(v[i]);
        i = i + 1;
        assert(s@ == v@.subrange(0, i as int));
    }
    assert(v@.subrange(0, v.len() as int) == v@);
    s
}

/// A copy of `s`.
pub fn owned(s: &str) -> (r: String)
    ensures
        r@ == s@,
{
    let v = chars_of(s);
    string_of(&v)
}

/// A copy of an optional string.
pub fn copy_text(t: &Option<String>) -> (r: Option<String>)
    ensures
        text_model(r) == text_model(*t),
{
    match t {
        Some(s) => Some(s.clone()),
        None => None,
    }
}

/// A copy of the characters of `v` from `from` up to, not including, `to`.
pub fn slice_of(v: &Vec<char>, from: usize, to: usize) -> (r: Vec<char>)
    requires
        from <= to <= v.len(),
    ensures
        r@ == v@.subrange(from as int, to as int),
{
    let mut r: Vec<char> = Vec::new();
    let mut i: usize = from;
    while i < to
        invariant
            from <= i <= to,
            to <= v.len(),
            r@ == v@.subrange(from as int, i as int),
        decreases to - i,
    {
        r.push(v[i]);
        i = i + 1;
        assert(r@ == v@.subrange(from as int, i as int));
    }
    r
}

/// Appends the characters of `tail` to `v`.
pub fn append_chars(v: &mut Vec<char>, tail: &Vec<char>)
    ensures
        final(v)@ == old(v)@ + tail@,
{
    let mut i: usize = 0;
    while i < tail.len()
        invariant
            i <= tail.len(),
            v@ == old(v)@ + tail@.subrange(0, i as int),
        decreases tail.len() - i,
    {
        v.push(tail[i]);
        i = i + 1;
        assert(v@ == old(v)@ + tail@.subrange(0, i as int));
    }
    assert(tail@.subrange(0, tail.len() as int) == tail@);
}

/// Appends the characters of `tail` to `v`.
pub fn append_str(v: &mut Vec<char>, tail: &str)
    ensures
        final(v)@ == old(v)@ + tail@,
{
    let t = chars_of(tail);
    append_chars(v, &t);
}

// ---------------------------------------------------------------------------
// Character classes
// ---------------------------------------------------------------------------

/// Whether `c` is an ASCII decimal digit.
pub fn char_is_digit(c: char) -> (b: bool)
    ensures
        b == is_digit(c),
{
    c >= '0' && c <= '9'
}

/// Whether `c` is a control code.
pub fn char_is_control(c: char) -> (b: bool)
    ensures
        b == is_control(c),
{
    let n: u32 = c as u32;
    n <= 0x1f || (0x7f <= n && n <= 0x9f)
}

/// Whether `c` is a white-space character.
pub fn char_is_whitespace(c: char) -> (b: bool)
    ensures
        b == is_whitespace(c),
{
    let n: u32 = c as u32;
    (0x09 <= n && n <= 0x0d) || n == 0x20 || n == 0x85 || n == 0xa0 || n == 0x1680 || (0x2000 <= n
        && n <= 0x200a) || n == 0x2028 || n == 0x2029 || n == 0x202f || n == 0x205f || n == 0x3000
}

/// `c` with an ASCII capital letter replaced by its small letter.
pub fn char_to_lower(c: char) -> (r: char)
    ensures
        r == lower_ascii(c),
{
    if c >= 'A' && c <= 'Z' {
        ((c as u8) + 32u8) as char
    } else {
        c
    }
}

/// `v` with every ASCII capital letter replaced by its small letter.
pub fn to_lowered(v: &Vec<char>) -> (r: Vec<char>)
    ensures
        r@ == lowered(v@),
{
    let mut r: Vec<char> = Vec::new();
    let mut i: usize = 0;
    while i < v.len()
        invariant
            i <= v.len(),
            r@.len() == i,
            forall|j: int| 0 <= j < i ==> r@[j] == lower_ascii(v@[j]),
        decreases v.len() - i,
    {
        r.push(char_to_lower(v[i]));
        i = i + 1;
    }
    assert(r@ =~= lowered(v@));
    r
}

// ---------------------------------------------------------------------------
// Searching
// ---------------------------------------------------------------------------

/// Whether `pat` occurs in `hay` at position `at`.
pub fn occurs_at(hay: &Vec<char>, pat: &Vec<char>, at: usize) -> (b: bool)
    ensures
        b == matches_at(hay@, pat@, at as int),
{
    if pat.len() > hay.len() || at > hay.len() - pat.len() {
        return false;
    }
    let mut k: usize = 0;
    while k < pat.len()
        invariant
            k <= pat.len(),
            at + pat.len() <= hay.len(),
            forall|j: int| 0 <= j < k ==> hay@[at + j] == pat@[j],
        decreases pat.len() - k,
    {
        if hay[at + k] != pat[k] {
            proof {
                let sub = hay@.subrange(at as int, at + pat.len());
                assert(sub[k as int] == hay@[at + k]);
            }
            return false;
        }
        k = k + 1;
    }
    assert(hay@.subrange(at as int, at + pat.len()) =~= pat@);
    true
}

/// The position of the first occurrence of `pat` in `hay` at or after
/// `from`.
pub fn find_from(hay: &Vec<char>, pat: &Vec<char>, from: usize) -> (r: Option<usize>)
    ensures
        match r {
            Some(i) => first_match_from(hay@, pat@, from as int) == Some(i as int),
            None => first_match_from(hay@, pat@, from as int) is None,
        },
{
    if pat.len() > hay.len() || from > hay.len() - pat.len() {
        return None;
    }
    let last: usize = hay.len() - pat.len();
    let mut i: usize = from;
    loop
        invariant
            from <= i <= last,
            last == hay.len() - pat.len(),
            first_match_from(hay@, pat@, from as int) == first_match_from(hay@, pat@, i as int),
        decreases last - i,
    {
        if occurs_at(hay, pat, i) {
            return Some(i);
        }
        if i == last {
            proof {
                lemma_first_match_from(hay@, pat@, i as int);
                lemma_first_match_from(hay@, pat@, i + 1);
            }
            return None;
        }
        i = i + 1;
    }
}

/// The position of the first occurrence of `pat` in `hay`.
pub fn find(hay: &Vec<char>, pat: &str) -> (r: Option<usize>)
    ensures
        match r {
            Some(i) => first_match(hay@, pat@) == Some(i as int),
            None => first_match(hay@, pat@) is None,
        },
{
    let p = chars_of(pat);
    find_from(hay, &p, 0)
}

/// The position of the first occurrence of the character `c` in `hay`.
pub fn find_char(hay: &Vec<char>, c: char) -> (r: Option<usize>)
    ensures
        match r {
            Some(i) => first_char(hay@, c) == Some(i as int),
            None => first_char(hay@, c) is None,
        },
{
    let mut p: Vec<char> = Vec::new();
    p.push(c);
    assert(p@ =~= seq![c]);
    find_from(hay, &p, 0)
}

/// Whether `pat` occurs somewhere in `hay`.
pub fn has(hay: &Vec<char>, pat: &str) -> (b: bool)
    ensures
        b == contains(hay@, pat@),
{
    proof {
        lemma_contains_first_match(hay@, pat@);
    }
    find(hay, pat).is_some()
}

/// Whether `hay` begins with `pat`.
pub fn begins_with(hay: &Vec<char>, pat: &str) -> (b: bool)
    ensures
        b == starts_with(hay@, pat@),
{
    let p = chars_of(pat);
    occurs_at(hay, &p, 0)
}

/// Whether `hay` ends with `pat`.
pub fn finishes_with(hay: &Vec<char>, pat: &str) -> (b: bool)
    ensures
        b == ends_with(hay@, pat@),
{
    let p = chars_of(pat);
    if p.len() > hay.len() {
        return false;
    }
    occurs_at(hay, &p, hay.len() - p.len())
}

/// Whether `a` and `b` hold the same characters.
pub fn same_text(a: &Vec<char>, b: &str) -> (r: bool)
    ensures
        r == (a@ == b@),
{
    let p = chars_of(b);
    if p.len() != a.len() {
        return false;
    }
    let r = occurs_at(a, &p, 0);
    assert(a@.subrange(0, a@.len() as int) == a@);
    r
}

// ---------------------------------------------------------------------------
// Trimming
// ---------------------------------------------------------------------------

/// `v` without leading and trailing white space.
pub fn trim(v: &Vec<char>) -> (r: Vec<char>)
    ensures
        r@ == trimmed(v@),
{
    let ghost ws = whitespace();
    let mut start: usize = 0;
    while start < v.len() && char_is_whitespace(v[start])
        invariant
            start <= v.len(),
            forall|i: int| 0 <= i < start ==> is_whitespace(#[trigger] v@[i]),
        decreases v.len() - start,
    {
        start = start + 1;
    }
    proof {
        assert forall|i: int| 0 <= i < start implies ws(#[trigger] v@[i]) by {}
        lemma_leading_run_unique(v@, ws, start as int);
    }
    let ghost mid = v@.subrange(start as int, v.len() as int);
    let mut end: usize = v.len();
    while end > start && char_is_whitespace(v[end - 1])
        invariant
            start <= end <= v.len(),
            forall|i: int| end <= i < v.len() ==> is_whitespace(#[trigger] v@[i]),
        decreases end,
    {
        end = end - 1;
    }
    proof {
        assert forall|i: int| end - start <= i < mid.len() implies ws(#[trigger] mid[i]) by {
            assert(mid[i] == v@[start + i]);
        }
        if end > start {
            assert(mid[end - start - 1] == v@[end - 1]);
        }
        lemma_trailing_run_unique(mid, ws, end - start);
        assert(mid.subrange(0, end - start) =~= v@.subrange(start as int, end as int));
    }
    slice_of(v, start, end)
}

/// `v` without its trailing occurrences of the character `c`.
pub fn trim_end_char(v: &Vec<char>, c: char) -> (r: Vec<char>)
    ensures
        r@ == strip_end_char(v@, c),
{
    let ghost p = exactly(c);
    let mut end: usize = v.len();
    while end > 0 && v[end - 1] == c
        invariant
            end <= v.len(),
            forall|i: int| end <= i < v.len() ==> #[trigger] v@[i] == c,
        decreases end,
    {
        end = end - 1;
    }
    proof {
        assert forall|i: int| end <= i < v.len() implies p(#[trigger] v@[i]) by {}
        lemma_trailing_run_unique(v@, p, end as int);
    }
    slice_of(v, 0, end)
}

// ---------------------------------------------------------------------------
// Numbers
// ---------------------------------------------------------------------------

/// The ASCII digit that stands for `d`.
pub fn digit_to_char(d: u8) -> (c: char)
    requires
        d < 10,
    ensures
        c == digit_char(d as nat),
        is_digit(c),
        digit_value(c) == d,
{
    (48u8 + d) as char
}

/// The decimal digits of `n`.
pub fn decimal_of(n: u64) -> (r: Vec<char>)
    ensures
        r@ == decimal(n as nat),
    decreases n,
{
    if n < 10 {
        let mut r: Vec<char> = Vec::new();
        r.push(digit_to_char(n as u8));
        assert(r@ =~= seq![digit_char(n as nat)]);
        r
    } else {
        let mut r = decimal_of(n / 10);
        r.push(digit_to_char((n % 10) as u8));
        r
    }
}

/// The decimal digits of `n`, with a minus sign where `n` is negative.
pub fn signed_decimal_of(n: i32) -> (r: Vec<char>)
    ensures
        r@ == signed_decimal(n as int),
{
    if n < 0 {
        let mut r: Vec<char> = Vec::new();
        r.push('-');
        let magnitude: u64 = (-(n as i64)) as u64;
        let digits = decimal_of(magnitude);
        append_chars(&mut r, &digits);
        assert(r@ =~= seq!['-'] + decimal((-(n as int)) as nat));
        r
    } else {
        decimal_of(n as u64)
    }
}

} // verus!
