//! Character classes and scanning over text held as `Vec<char>`.
use vstd::prelude::*;

verus! {

/// The classes of characters that the configuration grammar tells apart.
#[derive(Debug, Clone, Copy, PartialEq, Eq, Structural)]
pub enum CharClass {
    /// Unicode `White_Space`, as `char::is_whitespace` and regex `\s`.
    Space,
    /// ASCII letters, digits and `_`.
    Word,
    /// What a `@key: value` pair may hold: words, spaces, `(`, `)`, `.`, `,`.
    Value,
    /// ASCII digits.
    Digit,
    /// ASCII digits and `.`.
    Number,
    /// Anything but `\n`.
    InLine,
    /// What a source name may hold: words, spaces, `/`, `\\`, `.`, `-`.
    Path,
}

pub open spec fn is_space(c: char) -> bool {
    let u = c as u32;
    ||| u == 0x20
    ||| 0x09 <= u <= 0x0d
    ||| u == 0x85
    ||| u == 0xa0
    ||| u == 0x1680
    ||| 0x2000 <= u <= 0x200a
    ||| u == 0x2028
    ||| u == 0x2029
    ||| u == 0x202f
    ||| u == 0x205f
    ||| u == 0x3000
}

pub open spec fn is_digit(c: char) -> bool {
    '0' <= c <= '9'
}

pub open spec fn is_word(c: char) -> bool {
    is_digit(c) || ('a' <= c <= 'z') || ('A' <= c <= 'Z') || c == '_'
}

pub open spec fn in_class(c: char, k: CharClass) -> bool {
    match k {
        CharClass::Space => is_space(c),
        CharClass::Word => is_word(c),
        CharClass::Value => is_word(c) || is_space(c) || c == '(' || c == ')' || c == '.' || c == ',',
        CharClass::Digit => is_digit(c),
        CharClass::Number => is_digit(c) || c == '.',
        CharClass::InLine => c != '\n',
        CharClass::Path => is_word(c) || is_space(c) || c == '/' || c == '\\' || c == '.' || c == '-',
    }
}

/// Where the run of class `k` that starts at `i` ends.
pub open spec fn span_end(s: Seq<char>, i: int, k: CharClass) -> int
    decreases s.len() - i,
{
    if 0 <= i < s.len() && in_class(s[i], k) {
        span_end(s, i + 1, k)
    } else {
        i
    }
}

/// Where the run of class `k` that ends at `j` starts, not going below `lo`.
pub open spec fn span_start(s: Seq<char>, lo: int, j: int, k: CharClass) -> int
    decreases j - lo,
{
    if lo < j <= s.len() && in_class(s[j - 1], k) {
        span_start(s, lo, j - 1, k)
    } else {
        j
    }
}

/// `s` without leading and trailing white space, as `str::trim`.
pub open spec fn trim(s: Seq<char>) -> Seq<char> {
    let a = span_end(s, 0, CharClass::Space);
    s.subrange(a, span_start(s, a, s.len() as int, CharClass::Space))
}

pub proof fn lemma_span_end_bounds(s: Seq<char>, i: int, k: CharClass)
    requires
        0 <= i <= s.len(),
    ensures
        i <= span_end(s, i, k) <= s.len(),
        span_end(s, i, k) < s.len() ==> !in_class(s[span_end(s, i, k)], k),
        forall|m: int| i <= m < span_end(s, i, k) ==> in_class(#[trigger] s[m], k),
    decreases s.len() - i,
{
    if i < s.len() && in_class(s[i], k) {
        lemma_span_end_bounds(s, i + 1, k);
    }
}

pub proof fn lemma_span_start_bounds(s: Seq<char>, lo: int, j: int, k: CharClass)
    requires
        0 <= lo <= j <= s.len(),
    ensures
        lo <= span_start(s, lo, j, k) <= j,
    decreases j - lo,
{
    if lo < j && in_class(s[j - 1], k) {
        lemma_span_start_bounds(s, lo, j - 1, k);
    }
}

pub fn in_class_exec(c: char, k: CharClass) -> (r: bool)
    ensures
        r == in_class(c, k),
{
    let u = c as u32;
    let space = u == 0x20 || (0x09 <= u && u <= 0x0d) || u == 0x85 || u == 0xa0 || u == 0x1680 || (
    0x2000 <= u && u <= 0x200a) || u == 0x2028 || u == 0x2029 || u == 0x202f || u == 0x205f || u
        == 0x3000;
    let digit = '0' <= c && c <= '9';
    let word = digit || ('a' <= c && c <= 'z') || ('A' <= c && c <= 'Z') || c == '_';
    match k {
        CharClass::Space => space,
        CharClass::Word => word,
        CharClass::Value => word || space || c == '(' || c == ')' || c == '.' || c == ',',
        CharClass::Digit => digit,
        CharClass::Number => digit || c == '.',
        CharClass::InLine => c != '\n',
        CharClass::Path => word || space || c == '/' || c == '\\' || c == '.' || c == '-',
    }
}

/// Where the run of class `k` that starts at `i` ends.
pub fn skip(s: &Vec<char>, i: usize, k: CharClass) -> (r: usize)
    requires
        i <= s@.len(),
    ensures
        r == span_end(s@, i as int, k),
        i <= r <= s@.len(),
{
    let mut j = i;
    while j < s.len() && in_class_exec(s[j], k)
        invariant
            i <= j <= s@.len(),
            span_end(s@, j as int, k) == span_end(s@, i as int, k),
        decreases s@.len() - j,
    {
        j = j + 1;
    }
    j
}

/// Where the run of class `k` that ends at `j` starts, not going below `lo`.
pub fn skip_back(s: &Vec<char>, lo: usize, j: usize, k: CharClass) -> (r: usize)
    requires
        lo <= j <= s@.len(),
    ensures
        r == span_start(s@, lo as int, j as int, k),
        lo <= r <= j,
{
    let mut m = j;
    while m > lo && in_class_exec(s[m - 1], k)
        invariant
            lo <= m <= j <= s@.len(),
            span_start(s@, lo as int, m as int, k) == span_start(s@, lo as int, j as int, k),
        decreases m,
    {
        m = m - 1;
    }
    m
}

/// The characters of `s` from `a` up to `b`.
pub fn slice(s: &Vec<char>, a: usize, b: usize) -> (r: Vec<char>)
    requires
        a <= b <= s@.len(),
    ensures
        r@ == s@.subrange(a as int, b as int),
{
    let mut r: Vec<char> = Vec::new();
    let mut m = a;
    while m < b
        invariant
            a <= m <= b <= s@.len(),
            r@ == s@.subrange(a as int, m as int),
        decreases b - m,
    {
        r.push(s[m]);
        m = m + 1;
    }
    r
}

/// Appends the characters of `w` to `v`.
pub fn append(v: &mut Vec<char>, w: &Vec<char>)
    ensures
        final(v)@ == old(v)@ + w@,
{
    let mut m: usize = 0;
    while m < w.len()
        invariant
            m <= w@.len(),
            v@ == old(v)@ + w@.subrange(0, m as int),
        decreases w@.len() - m,
    {
        v.push(w[m]);
        m = m + 1;
    }
    assert(w@.subrange(0, w@.len() as int) =~= w@);
}

/// `s` without leading and trailing white space.
pub fn trimmed(s: &Vec<char>) -> (r: Vec<char>)
    ensures
        r@ == trim(s@),
        r@.len() <= s@.len(),
{
    let a = skip(s, 0, CharClass::Space);
    let b = skip_back(s, a, s.len(), CharClass::Space);
    slice(s, a, b)
}

/// Whether `s` holds exactly the characters of `t`.
pub fn same_chars(s: &Vec<char>, t: &Vec<char>) -> (r: bool)
    ensures
        r == (s@ == t@),
{
    if s.len() != t.len() {
        return false;
    }
    let mut m: usize = 0;
    while m < s.len()
        invariant
            s@.len() == t@.len(),
            m <= s@.len(),
            forall|q: int| 0 <= q < m ==> s@[q] == t@[q],
        decreases s@.len() - m,
    {
        if s[m] != t[m] {
            return false;
        }
        m = m + 1;
    }
    assert(s@ =~= t@);
    true
}

/// The characters of `s`, one by one.
pub fn chars_of(s: &str) -> (r: Vec<char>)
    ensures
        r@ == s@,
{
    let mut r: Vec<char> = Vec::new();
    for c in it: s.chars()
        invariant
            r@ == it.seq().subrange(0, it.index() as int),
    {
        r.push(c);
    }
    r
}

} // verus!
