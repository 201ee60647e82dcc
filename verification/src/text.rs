//! Text helpers shared by the value objects: whitespace trimming, lower-casing,
//! byte length and decimal rendering.

use vstd::prelude::*;

verus! {

/// The Unicode `White_Space` property, which `str::trim` strips.
pub open spec fn is_white_space(c: char) -> bool {
    let u = c as int;
    ||| 0x9 <= u <= 0xD
    ||| u == 0x20
    ||| u == 0x85
    ||| u == 0xA0
    ||| u == 0x1680
    ||| 0x2000 <= u <= 0x200A
    ||| u == 0x2028
    ||| u == 0x2029
    ||| u == 0x202F
    ||| u == 0x205F
    ||| u == 0x3000
}

/// `s` without its leading white space.
pub open spec fn skip_leading_ws(s: Seq<char>) -> Seq<char>
    decreases s.len(),
{
    if s.len() > 0 && is_white_space(s[0]) {
        skip_leading_ws(s.drop_first())
    } else {
        s
    }
}

/// `s` without its trailing white space.
pub open spec fn skip_trailing_ws(s: Seq<char>) -> Seq<char>
    decreases s.len(),
{
    if s.len() > 0 && is_white_space(s.last()) {
        skip_trailing_ws(s.drop_last())
    } else {
        s
    }
}

/// `s` with leading and trailing white space removed.
pub open spec fn trim_ws(s: Seq<char>) -> Seq<char> {
    skip_trailing_ws(skip_leading_ws(s))
}

proof fn lemma_skip_trailing_is_prefix(s: Seq<char>)
    ensures
        skip_trailing_ws(s).len() <= s.len(),
        skip_trailing_ws(s) == s.subrange(0, skip_trailing_ws(s).len() as int),
        skip_trailing_ws(s).len() > 0 ==> !is_white_space(skip_trailing_ws(s).last()),
    decreases s.len(),
{
    if s.len() > 0 && is_white_space(s.last()) {
        lemma_skip_trailing_is_prefix(s.drop_last());
        assert(s.drop_last().subrange(0, skip_trailing_ws(s).len() as int) =~= s.subrange(
            0,
            skip_trailing_ws(s).len() as int,
        ));
    } else {
        assert(s.subrange(0, s.len() as int) =~= s);
    }
}

proof fn lemma_skip_leading_clean(s: Seq<char>)
    ensures
        skip_leading_ws(s).len() > 0 ==> !is_white_space(skip_leading_ws(s)[0]),
    decreases s.len(),
{
    if s.len() > 0 && is_white_space(s[0]) {
        lemma_skip_leading_clean(s.drop_first());
    }
}

/// Trimmed text neither starts nor ends with white space, and trimming it
/// again changes nothing.
pub proof fn lemma_trim_is_clean(s: Seq<char>)
    ensures
        trim_ws(s).len() > 0 ==> !is_white_space(trim_ws(s)[0]) && !is_white_space(trim_ws(s).last()),
        trim_ws(trim_ws(s)) == trim_ws(s),
{
    let l = skip_leading_ws(s);
    let t = trim_ws(s);
    lemma_skip_leading_clean(s);
    lemma_skip_trailing_is_prefix(l);
    if t.len() > 0 {
        assert(t[0] == l[0]);
    }
    assert(skip_leading_ws(t) == t);
    if t.len() > 0 {
        assert(!is_white_space(t.last()));
    }
    assert(skip_trailing_ws(t) == t);
}

/// The lower-case mapping of `s` as `str::to_lowercase` computes it
/// (Unicode `Lowercase_Mapping`, with its context rules).
pub uninterp spec fn lowercase_of(s: Seq<char>) -> Seq<char>;

/// Length in bytes of the UTF-8 encoding of `s`, as `str::len` reports it.
pub open spec fn byte_len(s: Seq<char>) -> usize {
    vstd::utf8::encode_utf8(s).len() as usize
}

/// Whether `c` has the Unicode `White_Space` property.
pub fn white_space(c: char) -> (r: bool)
    ensures
        r == is_white_space(c),
{
    let u = c as u32;
    (0x9 <= u && u <= 0xD) || u == 0x20 || u == 0x85 || u == 0xA0 || u == 0x1680 || (0x2000 <= u
        && u <= 0x200A) || u == 0x2028 || u == 0x2029 || u == 0x202F || u == 0x205F || u == 0x3000
}

/// The slice without leading and trailing characters that have the Unicode
/// `White_Space` property, as `str::trim` gives it.
pub fn trim_str(s: &str) -> (r: &str)
    ensures
        r@ == trim_ws(s@),
{
    let n = s.unicode_len();
    let mut i: usize = 0;
    assert(s@.skip(0) =~= s@);
    while i < n && white_space(s.get_char(i))
        invariant
            n == s@.len(),
            i <= n,
            skip_leading_ws(s@) == skip_leading_ws(s@.skip(i as int)),
        decreases n - i,
    {
        assert(s@.skip(i as int).drop_first() =~= s@.skip(i + 1));
        i = i + 1;
    }
    assert(skip_leading_ws(s@.skip(i as int)) == s@.skip(i as int));
    assert(s@.skip(i as int) =~= s@.subrange(i as int, n as int));
    let mut j: usize = n;
    while j > i && white_space(s.get_char(j - 1))
        invariant
            n == s@.len(),
            i <= j <= n,
            skip_trailing_ws(s@.subrange(i as int, n as int)) == skip_trailing_ws(
                s@.subrange(i as int, j as int),
            ),
        decreases j - i,
    {
        assert(s@.subrange(i as int, j as int).drop_last() =~= s@.subrange(i as int, j - 1));
        j = j - 1;
    }
    assert(skip_trailing_ws(s@.subrange(i as int, j as int)) == s@.subrange(i as int, j as int));
    s.substring_char(i, j)
}

/// Whether every character of `s` is ASCII.
pub open spec fn ascii_only(s: Seq<char>) -> bool {
    forall|i: int| 0 <= i < s.len() ==> (#[trigger] s[i] as int) < 128
}

/// The lower-case form of an ASCII character: `A`–`Z` become `a`–`z`, the
/// others stay.
pub open spec fn ascii_lower(c: char) -> char {
    if 'A' <= c <= 'Z' {
        ((c as int) + 32) as char
    } else {
        c
    }
}

/// The upper-case form of an ASCII character: `a`–`z` become `A`–`Z`, the
/// others stay.
pub open spec fn ascii_upper(c: char) -> char {
    if 'a' <= c <= 'z' {
        ((c as int) - 32) as char
    } else {
        c
    }
}

/// `str::to_lowercase`: the result is named by `lowercase_of`. Of it the
/// documentation gives that each character maps to one or more characters
/// (so the result is empty exactly when the input is, and never shorter), and
/// that ASCII text maps character by character, `A`–`Z` to `a`–`z`; the
/// mapping of other characters is not described.
#[verifier::external_body]
pub(crate) fn lowercase_str(s: &str) -> (r: String)
    ensures
        r@ == lowercase_of(s@),
        r@.len() >= s@.len(),
        r@.len() == 0 <==> s@.len() == 0,
        ascii_only(s@) ==> r@ == s@.map_values(|c: char| ascii_lower(c)),
{
    s.to_lowercase()
}

/// The ASCII digit for `d`.
pub open spec fn digit_char(d: nat) -> char {
    if d == 0 {
        '0'
    } else if d == 1 {
        '1'
    } else if d == 2 {
        '2'
    } else if d == 3 {
        '3'
    } else if d == 4 {
        '4'
    } else if d == 5 {
        '5'
    } else if d == 6 {
        '6'
    } else if d == 7 {
        '7'
    } else if d == 8 {
        '8'
    } else {
        '9'
    }
}

/// Decimal rendering of `n`, most significant digit first, no leading zeros.
pub open spec fn decimal(n: nat) -> Seq<char>
    decreases n,
{
    if n < 10 {
        seq![digit_char(n)]
    } else {
        decimal(n / 10) + seq![digit_char(n % 10)]
    }
}

fn digit_str(d: u64) -> (r: &'static str)
    requires
        d < 10,
    ensures
        r@ == seq![digit_char(d as nat)],
{
    proof {
        reveal_strlit("0");
        reveal_strlit("1");
        reveal_strlit("2");
        reveal_strlit("3");
        reveal_strlit("4");
        reveal_strlit("5");
        reveal_strlit("6");
        reveal_strlit("7");
        reveal_strlit("8");
        reveal_strlit("9");
    }
    if d == 0 {
        "0"
    } else if d == 1 {
        "1"
    } else if d == 2 {
        "2"
    } else if d == 3 {
        "3"
    } else if d == 4 {
        "4"
    } else if d == 5 {
        "5"
    } else if d == 6 {
        "6"
    } else if d == 7 {
        "7"
    } else if d == 8 {
        "8"
    } else {
        "9"
    }
}

/// Appends the decimal rendering of `n` to `out`.
pub fn push_decimal(out: &mut String, n: u64)
    ensures
        final(out)@ == old(out)@ + decimal(n as nat),
    decreases n,
{
    if n >= 10 {
        push_decimal(out, n / 10);
        let ghost mid = out@;
        out.append(digit_str(n % 10));
        assert(out@ =~= old(out)@ + (decimal((n / 10) as nat) + seq![digit_char((n % 10) as nat)]));
    } else {
        out.append(digit_str(n));
    }
}

/// `p` is a prefix of `s`.
pub open spec fn has_prefix(s: Seq<char>, p: Seq<char>) -> bool {
    p.len() <= s.len() && s.subrange(0, p.len() as int) == p
}

/// `s` without its leading underscores.
pub open spec fn skip_underscores(s: Seq<char>) -> Seq<char>
    decreases s.len(),
{
    if s.len() > 0 && s[0] == '_' {
        skip_underscores(s.drop_first())
    } else {
        s
    }
}

/// Whether two texts are equal, compared character by character.
pub fn same_text(a: &str, b: &str) -> (r: bool)
    ensures
        r == (a@ == b@),
{
    let n = a.unicode_len();
    if n != b.unicode_len() {
        return false;
    }
    let mut i: usize = 0;
    while i < n
        invariant
            n == a@.len(),
            n == b@.len(),
            i <= n,
            forall|j: int| 0 <= j < i ==> a@[j] == b@[j],
        decreases n - i,
    {
        if a.get_char(i) != b.get_char(i) {
            return false;
        }
        i = i + 1;
    }
    assert(a@ =~= b@);
    true
}

/// Whether `s` starts with `p`.
pub fn starts_with(s: &str, p: &str) -> (r: bool)
    ensures
        r == has_prefix(s@, p@),
{
    let n = p.unicode_len();
    if n > s.unicode_len() {
        return false;
    }
    let mut i: usize = 0;
    while i < n
        invariant
            n == p@.len(),
            n <= s@.len(),
            i <= n,
            forall|j: int| 0 <= j < i ==> s@[j] == p@[j],
        decreases n - i,
    {
        if s.get_char(i) != p.get_char(i) {
            assert(s@.subrange(0, n as int)[i as int] != p@[i as int]);
            return false;
        }
        i = i + 1;
    }
    assert(s@.subrange(0, n as int) =~= p@);
    true
}

/// The characters of `s` from position `from` on, without leading underscores
/// (`s[from..].trim_start_matches('_')` in characters).
pub fn tail_without_underscores(s: &str, from: usize) -> (r: &str)
    requires
        from <= s@.len(),
    ensures
        r@ == skip_underscores(s@.skip(from as int)),
{
    let n = s.unicode_len();
    let mut i: usize = from;
    while i < n && s.get_char(i) == '_'
        invariant
            n == s@.len(),
            from <= i <= n,
            skip_underscores(s@.skip(from as int)) == skip_underscores(s@.skip(i as int)),
        decreases n - i,
    {
        assert(s@.skip(i as int).drop_first() =~= s@.skip(i + 1));
        i = i + 1;
    }
    let r = s.substring_char(i, n);
    assert(r@ =~= s@.skip(i as int));
    r
}

/// `p` occurs in `s` at position `i`.
pub open spec fn occurs_at(s: Seq<char>, p: Seq<char>, i: int) -> bool {
    0 <= i && i + p.len() <= s.len() && s.subrange(i, i + p.len()) == p
}

/// `p` occurs somewhere in `s`.
pub open spec fn contains_text(s: Seq<char>, p: Seq<char>) -> bool {
    exists|i: int| occurs_at(s, p, i)
}

fn matches_at(s: &str, p: &str, at: usize) -> (r: bool)
    requires
        at + p@.len() <= s@.len(),
        s@.len() <= usize::MAX,
    ensures
        r == occurs_at(s@, p@, at as int),
{
    let n = p.unicode_len();
    let mut j: usize = 0;
    while j < n
        invariant
            n == p@.len(),
            at + n <= s@.len(),
            s@.len() <= usize::MAX,
            j <= n,
            forall|k: int| 0 <= k < j ==> s@[at + k] == p@[k],
        decreases n - j,
    {
        if s.get_char(at + j) != p.get_char(j) {
            assert(s@.subrange(at as int, at + n)[j as int] != p@[j as int]);
            return false;
        }
        j = j + 1;
    }
    assert(s@.subrange(at as int, at + n) =~= p@);
    true
}

/// Whether `p` occurs in `s`.
pub fn contains(s: &str, p: &str) -> (r: bool)
    ensures
        r == contains_text(s@, p@),
{
    let n = s.unicode_len();
    let m = p.unicode_len();
    if m > n {
        return false;
    }
    if m == 0 {
        assert(s@.subrange(0, 0) =~= p@);
        assert(occurs_at(s@, p@, 0));
        return true;
    }
    let mut i: usize = 0;
    while i <= n - m
        invariant
            n == s@.len(),
            m == p@.len(),
            0 < m <= n,
            i <= n - m + 1,
            forall|k: int| 0 <= k < i ==> !occurs_at(s@, p@, k),
        decreases n - m + 1 - i,
    {
        if matches_at(s, p, i) {
            return true;
        }
        i = i + 1;
    }
    proof {
        lemma_no_occurrence(s@, p@);
    }
    false
}

proof fn lemma_no_occurrence(s: Seq<char>, p: Seq<char>)
    requires
        p.len() <= s.len(),
        forall|k: int| 0 <= k < s.len() - p.len() + 1 ==> !occurs_at(s, p, k),
    ensures
        !contains_text(s, p),
{
    assert forall|k: int| !occurs_at(s, p, k) by {
        if 0 <= k && k + p.len() <= s.len() {
            assert(k < s.len() - p.len() + 1);
        }
    }
}

} // verus!
