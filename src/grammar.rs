//! Recognizers for the pieces of a `.cfg` line: block headers `[name]`,
//! pairs `@key: value`, number tuples `(a, b, c)` and unsigned integers.
//! Each one finds the leftmost match in the line, as a regular-expression
//! search would.
use vstd::prelude::*;
use crate::text::{CharClass, is_digit, span_end, lemma_span_end_bounds, skip, slice};

verus! {

/// A header `[` ws* word ws* `]` starting at `i`: the span of its word.
pub open spec fn head_at(s: Seq<char>, i: int) -> Option<(int, int)> {
    let j = span_end(s, i + 1, CharClass::Space);
    let k = span_end(s, j, CharClass::Word);
    let m = span_end(s, k, CharClass::Space);
    if 0 <= i < s.len() && s[i] == '[' && k > j && m < s.len() && s[m] == ']' {
        Some((j, k))
    } else {
        None
    }
}

/// The word of the leftmost header at or after `i`.
pub open spec fn find_head(s: Seq<char>, i: int) -> Option<Seq<char>>
    decreases s.len() - i,
{
    if i < 0 || i >= s.len() {
        None
    } else {
        match head_at(s, i) {
            Some((j, k)) => Some(s.subrange(j, k)),
            None => find_head(s, i + 1),
        }
    }
}

/// A pair `@` word `:` ws* value+ starting at `i`, where the value is a
/// maximal run of value characters; when none follows the spaces, the last
/// space is the value. Gives the spans of key and value.
pub open spec fn pair_at(s: Seq<char>, i: int) -> Option<(int, int, int, int)> {
    let k = span_end(s, i + 1, CharClass::Word);
    let j = span_end(s, k + 1, CharClass::Space);
    let e = span_end(s, j, CharClass::Value);
    if 0 <= i < s.len() && s[i] == '@' && k > i + 1 && k < s.len() && s[k] == ':' {
        if e > j {
            Some((i + 1, k, j, e))
        } else if j > k + 1 {
            Some((i + 1, k, j - 1, j))
        } else {
            None
        }
    } else {
        None
    }
}

/// Key and value of the leftmost pair at or after `i`.
pub open spec fn find_pair(s: Seq<char>, i: int) -> Option<(Seq<char>, Seq<char>)>
    decreases s.len() - i,
{
    if i < 0 || i >= s.len() {
        None
    } else {
        match pair_at(s, i) {
            Some((a, b, c, d)) => Some((s.subrange(a, b), s.subrange(c, d))),
            None => find_pair(s, i + 1),
        }
    }
}

/// `n` numbers, ws* number ws* each, separated by `,`, from `j`: the
/// numbers and where they end.
pub open spec fn items_at(s: Seq<char>, j: int, n: nat) -> Option<(Seq<Seq<char>>, int)>
    decreases n,
{
    let a = span_end(s, j, CharClass::Space);
    let b = span_end(s, a, CharClass::Number);
    let c = span_end(s, b, CharClass::Space);
    if n == 0 || b == a {
        None
    } else if n == 1 {
        Some((seq![s.subrange(a, b)], c))
    } else if 0 <= c < s.len() && s[c] == ',' {
        match items_at(s, c + 1, (n - 1) as nat) {
            Some((rest, e)) => Some((seq![s.subrange(a, b)] + rest, e)),
            None => None,
        }
    } else {
        None
    }
}

/// A tuple `(` items `)` of `n` numbers starting at `i`.
pub open spec fn tuple_at(s: Seq<char>, i: int, n: nat) -> Option<Seq<Seq<char>>> {
    if 0 <= i < s.len() && s[i] == '(' {
        match items_at(s, i + 1, n) {
            Some((items, e)) => if 0 <= e < s.len() && s[e] == ')' {
                Some(items)
            } else {
                None
            },
            None => None,
        }
    } else {
        None
    }
}

/// The numbers of the leftmost tuple of `n` numbers at or after `i`.
pub open spec fn find_tuple(s: Seq<char>, i: int, n: nat) -> Option<Seq<Seq<char>>>
    decreases s.len() - i,
{
    if i < 0 || i >= s.len() {
        None
    } else {
        match tuple_at(s, i, n) {
            Some(items) => Some(items),
            None => find_tuple(s, i + 1, n),
        }
    }
}

/// The value of a decimal digit.
pub open spec fn digit_of(c: char) -> nat {
    if is_digit(c) {
        (c as int - '0' as int) as nat
    } else {
        0
    }
}

/// The value of a string of decimal digits.
pub open spec fn digits_value(s: Seq<char>) -> nat
    decreases s.len(),
{
    if s.len() == 0 {
        0
    } else {
        digits_value(s.drop_last()) * 10 + digit_of(s.last())
    }
}

pub open spec fn all_digits(s: Seq<char>) -> bool {
    forall|m: int| 0 <= m < s.len() ==> is_digit(#[trigger] s[m])
}

/// `s` without one leading `+`.
pub open spec fn unsigned_digits(s: Seq<char>) -> Seq<char> {
    if s.len() > 0 && s[0] == '+' {
        s.drop_first()
    } else {
        s
    }
}

/// What `u32::from_str` gives: an optional `+`, then one or more decimal
/// digits whose value fits in 32 bits.
pub open spec fn u32_of(s: Seq<char>) -> Option<u32> {
    let d = unsigned_digits(s);
    if d.len() > 0 && all_digits(d) && digits_value(d) <= u32::MAX {
        Some(digits_value(d) as u32)
    } else {
        None
    }
}

fn head_at_exec(s: &Vec<char>, i: usize) -> (r: Option<(usize, usize)>)
    requires
        i < s@.len(),
    ensures
        match head_at(s@, i as int) {
            Some((j, k)) => r == Some((j as usize, k as usize)),
            None => r is None,
        },
{
    let len = s.len();
    if s[i] != '[' {
        return None;
    }
    let j = skip(s, i + 1, CharClass::Space);
    let k = skip(s, j, CharClass::Word);
    let m = skip(s, k, CharClass::Space);
    if k > j && m < s.len() && s[m] == ']' {
        Some((j, k))
    } else {
        None
    }
}

/// The word of the leftmost block header `[` ws* word ws* `]` in `s`.
pub fn header_word(s: &Vec<char>) -> (r: Option<Vec<char>>)
    ensures
        match find_head(s@, 0) {
            Some(w) => r matches Some(v) && v@ == w,
            None => r is None,
        },
{
    let mut i: usize = 0;
    while i < s.len()
        invariant
            i <= s@.len(),
            find_head(s@, i as int) == find_head(s@, 0),
        decreases s@.len() - i,
    {
        match head_at_exec(s, i) {
            Some((j, k)) => {
                proof {
                    lemma_span_end_bounds(s@, i + 1, CharClass::Space);
                    lemma_span_end_bounds(s@, j as int, CharClass::Word);
                }
                return Some(slice(s, j, k));
            },
            None => {},
        }
        i = i + 1;
    }
    None
}

fn pair_at_exec(s: &Vec<char>, i: usize) -> (r: Option<(usize, usize, usize, usize)>)
    requires
        i < s@.len(),
    ensures
        match pair_at(s@, i as int) {
            Some((a, b, c, d)) => r == Some((a as usize, b as usize, c as usize, d as usize)),
            None => r is None,
        },
{
    let len = s.len();
    if s[i] != '@' {
        return None;
    }
    let k = skip(s, i + 1, CharClass::Word);
    if !(k > i + 1 && k < s.len() && s[k] == ':') {
        return None;
    }
    let j = skip(s, k + 1, CharClass::Space);
    let e = skip(s, j, CharClass::Value);
    if e > j {
        Some((i + 1, k, j, e))
    } else if j > k + 1 {
        Some((i + 1, k, j - 1, j))
    } else {
        None
    }
}

/// Key and value of the leftmost pair `@` word `:` ws* value in `s`.
pub fn key_value(s: &Vec<char>) -> (r: Option<(Vec<char>, Vec<char>)>)
    ensures
        match find_pair(s@, 0) {
            Some((key, value)) => r matches Some((k, v)) && k@ == key && v@ == value,
            None => r is None,
        },
{
    let mut i: usize = 0;
    while i < s.len()
        invariant
            i <= s@.len(),
            find_pair(s@, i as int) == find_pair(s@, 0),
        decreases s@.len() - i,
    {
        match pair_at_exec(s, i) {
            Some((a, b, c, d)) => {
                proof {
                    lemma_span_end_bounds(s@, i + 1, CharClass::Word);
                    lemma_span_end_bounds(s@, b + 1, CharClass::Space);
                    lemma_span_end_bounds(s@, span_end(s@, b + 1, CharClass::Space), CharClass::Value);
                }
                return Some((slice(s, a, b), slice(s, c, d)));
            },
            None => {},
        }
        i = i + 1;
    }
    None
}

fn items_at_exec(s: &Vec<char>, j: usize, n: usize) -> (r: Option<(Vec<Vec<char>>, usize)>)
    requires
        j <= s@.len(),
    ensures
        match items_at(s@, j as int, n as nat) {
            Some((items, e)) => r matches Some((v, f)) && f == e && v@.map_values(|x: Vec<char>| x@)
                == items,
            None => r is None,
        },
        r matches Some((v, f)) ==> j <= f <= s@.len(),
    decreases n,
{
    let a = skip(s, j, CharClass::Space);
    let b = skip(s, a, CharClass::Number);
    let c = skip(s, b, CharClass::Space);
    if n == 0 || b == a {
        return None;
    }
    let first = slice(s, a, b);
    if n == 1 {
        let mut v: Vec<Vec<char>> = Vec::new();
        v.push(first);
        assert(v@.map_values(|x: Vec<char>| x@) =~= seq![s@.subrange(a as int, b as int)]);
        return Some((v, c));
    }
    if c < s.len() && s[c] == ',' {
        match items_at_exec(s, c + 1, n - 1) {
            Some((rest, e)) => {
                let mut rest = rest;
                let ghost rest_view = rest@;
                let mut v: Vec<Vec<char>> = Vec::new();
                v.push(first);
                v.append(&mut rest);
                assert(v@.map_values(|x: Vec<char>| x@) =~= seq![s@.subrange(a as int, b as int)]
                    + rest_view.map_values(|x: Vec<char>| x@));
                Some((v, e))
            },
            None => None,
        }
    } else {
        None
    }
}

/// The numbers of the tuple of `n` numbers that starts at `i`, if one does.
fn tuple_at_exec(s: &Vec<char>, i: usize, n: usize) -> (r: Option<Vec<Vec<char>>>)
    requires
        i < s@.len(),
    ensures
        match tuple_at(s@, i as int, n as nat) {
            Some(items) => r matches Some(v) && v@.map_values(|x: Vec<char>| x@) == items,
            None => r is None,
        },
{
    let len = s.len();
    if s[i] != '(' {
        return None;
    }
    match items_at_exec(s, i + 1, n) {
        Some((items, e)) => if e < s.len() && s[e] == ')' {
            Some(items)
        } else {
            None
        },
        None => None,
    }
}

/// The numbers of the leftmost tuple `(` ws* number ws* (`,` ...) `)` of
/// `n` numbers in `s`, each number a run of digits and dots.
pub fn number_tuple(s: &Vec<char>, n: usize) -> (r: Option<Vec<Vec<char>>>)
    ensures
        match find_tuple(s@, 0, n as nat) {
            Some(items) => r matches Some(v) && v@.map_values(|x: Vec<char>| x@) == items,
            None => r is None,
        },
{
    let mut i: usize = 0;
    while i < s.len()
        invariant
            i <= s@.len(),
            find_tuple(s@, i as int, n as nat) == find_tuple(s@, 0, n as nat),
        decreases s@.len() - i,
    {
        match tuple_at_exec(s, i, n) {
            Some(items) => {
                return Some(items);
            },
            None => {},
        }
        i = i + 1;
    }
    None
}

/// Reads `s` as `u32::from_str` does: an optional `+`, then decimal digits
/// whose value fits in 32 bits.
pub fn parse_u32(s: &Vec<char>) -> (r: Option<u32>)
    ensures
        r == u32_of(s@),
{
    let start: usize = if s.len() > 0 && s[0] == '+' {
        1
    } else {
        0
    };
    let ghost d = unsigned_digits(s@);
    assert(d =~= s@.subrange(start as int, s@.len() as int));
    if start == s.len() {
        return None;
    }
    let mut value: u64 = 0;
    let mut m: usize = start;
    while m < s.len()
        invariant
            start <= m <= s@.len(),
            d == unsigned_digits(s@),
            d =~= s@.subrange(start as int, s@.len() as int),
            all_digits(s@.subrange(start as int, m as int)),
            value as nat == digits_value(s@.subrange(start as int, m as int)),
            value <= u32::MAX,
        decreases s@.len() - m,
    {
        let c = s[m];
        if !('0' <= c && c <= '9') {
            assert(d[m - start] == c);
            assert(!all_digits(d));
            return None;
        }
        let digit = (c as u32 - '0' as u32) as u64;
        let ghost prefix = s@.subrange(start as int, m + 1);
        assert(prefix.drop_last() =~= s@.subrange(start as int, m as int));
        assert(prefix.last() == c);
        assert(digits_value(prefix) == value * 10 + digit);
        assert(all_digits(prefix)) by {
            assert forall|q: int| 0 <= q < prefix.len() implies is_digit(#[trigger] prefix[q]) by {
                if q < prefix.len() - 1 {
                    assert(prefix[q] == s@.subrange(start as int, m as int)[q]);
                }
            }
        }
        let next = value * 10 + digit;
        m = m + 1;
        if next > 0xffff_ffff {
            proof {
                if all_digits(d) {
                    lemma_digits_mono(s@, start as int, m as int, s@.len() as int);
                    assert(digits_value(d) > u32::MAX);
                }
            }
            return None;
        }
        value = next;
    }
    assert(s@.subrange(start as int, m as int) =~= d);
    Some(value as u32)
}

/// Appending digits never lowers the value of a run of digits.
proof fn lemma_digits_mono(s: Seq<char>, a: int, m: int, n: int)
    requires
        0 <= a <= m <= n <= s.len(),
        all_digits(s.subrange(a, n)),
    ensures
        digits_value(s.subrange(a, m)) <= digits_value(s.subrange(a, n)),
    decreases n - m,
{
    if m < n {
        let p = s.subrange(a, n);
        assert(p.drop_last() =~= s.subrange(a, n - 1));
        assert(all_digits(s.subrange(a, n - 1))) by {
            assert forall|q: int| 0 <= q < n - 1 - a implies is_digit(#[trigger] s.subrange(a, n - 1)[q]) by {
                assert(p[q] == s.subrange(a, n - 1)[q]);
            }
        }
        assert(is_digit(p.last())) by {
            assert(p[n - 1 - a] == p.last());
        }
        lemma_digits_mono(s, a, m, n - 1);
    }
}

} // verus!
