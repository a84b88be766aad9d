//! Verified helpers on text, stated over sequences of characters.

use vstd::prelude::*;
use vstd::string::*;

verus! {

/// `String::push` appends the given character to the end of the string.
pub assume_specification[ std::string::String::push ](s: &mut std::string::String, c: char)
    ensures
        final(s)@ == old(s)@.push(c),
;

/// `text` with every `from` turned into `to`.
pub open spec fn replaced_char(text: Seq<char>, from: char, to: char) -> Seq<char> {
    Seq::new(
        text.len(),
        |i: int|
            if text[i] == from {
                to
            } else {
                text[i]
            },
    )
}

/// Whether `pattern` stands in `text` at position `i`.
pub open spec fn occurs_at(text: Seq<char>, pattern: Seq<char>, i: int) -> bool {
    &&& 0 <= i
    &&& i + pattern.len() <= text.len()
    &&& text.subrange(i, i + pattern.len()) == pattern
}

/// Whether `pattern` stands somewhere in `text`.
pub open spec fn occurs(text: Seq<char>, pattern: Seq<char>) -> bool {
    exists|i: int| occurs_at(text, pattern, i)
}

/// `text` with every occurrence of `pattern` replaced, found from the left
/// and not overlapping. An empty pattern occurs nowhere.
pub open spec fn substituted(text: Seq<char>, pattern: Seq<char>, replacement: Seq<char>) -> Seq<
    char,
>
    decreases text.len(),
{
    if pattern.len() == 0 || text.len() < pattern.len() {
        text
    } else if occurs_at(text, pattern, 0) {
        replacement + substituted(text.skip(pattern.len() as int), pattern, replacement)
    } else {
        seq![text[0]] + substituted(text.skip(1), pattern, replacement)
    }
}

/// What is left of `text` behind a leading `first`, if it starts with one.
pub open spec fn stripped_prefix(text: Seq<char>, first: char) -> Option<Seq<char>> {
    if text.len() > 0 && text[0] == first {
        Some(text.skip(1))
    } else {
        None
    }
}

/// The decimal digit for a value below ten.
pub open spec fn digit(d: nat) -> char {
    if d == 0 {
        '0'
    } else if d == 1 {
        '1'
    } else if d == 2 {
        '2'
    } else if d == 3 {
        '3'
    } else if d == 4 {
        '4'
    } else if d == 5 {
        '5'
    } else if d == 6 {
        '6'
    } else if d == 7 {
        '7'
    } else if d == 8 {
        '8'
    } else {
        '9'
    }
}

/// The decimal numeral of `n`, without leading zeros.
pub open spec fn decimal(n: nat) -> Seq<char>
    decreases n,
{
    if n < 10 {
        seq![digit(n)]
    } else {
        decimal(n / 10).push(digit(n % 10))
    }
}

/// The characters of `s`, in order.
pub fn chars_of(s: &str) -> (v: Vec<char>)
    ensures
        v@ == s@,
{
    let mut v: Vec<char> = Vec::new();
    for c in it: s.chars()
        invariant
            it.seq() == s@,
            v@ == s@.take(it.index()),
    {
        proof {
            assert(s@.take(it.index() + 1) =~= s@.take(it.index()).push(c));
        }
        v.push(c);
    }
    assert(s@.take(s@.len() as int) =~= s@);
    v
}

/// The string made of the characters `v[from..to]`.
pub fn string_of(v: &Vec<char>, from: usize, to: usize) -> (s: String)
    requires
        from <= to <= v.len(),
    ensures
        s@ == v@.subrange(from as int, to as int),
{
    let mut s = String::new();
    let mut i: usize = from;
    while i < to
        invariant
            from <= i <= to <= v.len(),
            s@ == v@.subrange(from as int, i as int),
        decreases to - i,
    {
        proof {
            assert(v@.subrange(from as int, i + 1) =~= v@.subrange(from as int, i as int).push(
                v@[i as int],
            ));
        }
        s.push(v[i]);
        i += 1;
    }
    s
}

/// Whether two texts hold the same characters.
pub fn same_text(a: &str, b: &str) -> (r: bool)
    ensures
        r == (a@ == b@),
{
    a.to_owned() == b.to_owned()
}

/// Replaces every `from` in `text` by `to`.
pub fn replace_char(text: &str, from: char, to: char) -> (result: String)
    ensures
        result@ == replaced_char(text@, from, to),
{
    let mut result = String::new();
    for c in it: text.chars()
        invariant
            it.seq() == text@,
            result@ == replaced_char(text@.take(it.index()), from, to),
    {
        proof {
            assert(replaced_char(text@.take(it.index() + 1), from, to) =~= replaced_char(
                text@.take(it.index()),
                from,
                to,
            ).push(
                if c == from {
                    to
                } else {
                    c
                },
            ));
        }
        if c == from {
            result.push(to);
        } else {
            result.push(c);
        }
    }
    assert(text@.take(text@.len() as int) =~= text@);
    result
}

/// Whether `pattern` stands in `text` at position `i`.
fn matches_at(text: &Vec<char>, pattern: &Vec<char>, i: usize) -> (r: bool)
    ensures
        r == occurs_at(text@, pattern@, i as int),
{
    if pattern.len() > text.len() || i > text.len() - pattern.len() {
        return false;
    }
    let mut k: usize = 0;
    while k < pattern.len()
        invariant
            k <= pattern.len(),
            i + pattern.len() <= text.len(),
            forall|j: int| 0 <= j < k ==> text@[i + j] == pattern@[j],
        decreases pattern.len() - k,
    {
        if text[i + k] != pattern[k] {
            proof {
                assert(text@.subrange(i as int, i + pattern.len())[k as int] == text@[i + k]);
            }
            return false;
        }
        k += 1;
    }
    proof {
        assert(text@.subrange(i as int, i + pattern.len()) =~= pattern@);
    }
    true
}

/// Whether `pattern` stands somewhere in `text`.
pub fn contains(text: &str, pattern: &str) -> (r: bool)
    ensures
        r == occurs(text@, pattern@),
{
    let text_chars = chars_of(text);
    let pattern_chars = chars_of(pattern);
    if pattern_chars.len() > text_chars.len() {
        return false;
    }
    let last: usize = text_chars.len() - pattern_chars.len();
    let mut i: usize = 0;
    loop
        invariant
            i <= last,
            last == text_chars.len() - pattern_chars.len(),
            text_chars@ == text@,
            pattern_chars@ == pattern@,
            forall|j: int| 0 <= j < i ==> !occurs_at(text@, pattern@, j),
        decreases last - i,
    {
        if matches_at(&text_chars, &pattern_chars, i) {
            return true;
        }
        if i == last {
            return false;
        }
        i += 1;
    }
}

/// Whether `text` begins with `prefix`.
pub fn starts_with(text: &str, prefix: &str) -> (r: bool)
    ensures
        r == occurs_at(text@, prefix@, 0),
{
    let text_chars = chars_of(text);
    let prefix_chars = chars_of(prefix);
    matches_at(&text_chars, &prefix_chars, 0)
}

/// Drops a leading `first` from `text`, if it starts with one.
pub fn strip_prefix(text: &str, first: char) -> (result: Option<String>)
    ensures
        match result {
            Some(rest) => stripped_prefix(text@, first) == Some(rest@),
            None => stripped_prefix(text@, first) is None,
        },
{
    let chars = chars_of(text);
    if chars.len() > 0 && chars[0] == first {
        Some(string_of(&chars, 1, chars.len()))
    } else {
        None
    }
}

/// Replaces every occurrence of `pattern` in `text` by `replacement`.
pub fn substitute(text: &str, pattern: &str, replacement: &str) -> (result: String)
    ensures
        result@ == substituted(text@, pattern@, replacement@),
{
    let chars = chars_of(text);
    let pattern_chars = chars_of(pattern);
    if pattern_chars.len() == 0 {
        return text.to_owned();
    }
    let mut result = String::new();
    let mut i: usize = 0;
    proof {
        assert(text@.skip(0) =~= text@);
        assert(result@ + substituted(text@, pattern@, replacement@) =~= substituted(
            text@,
            pattern@,
            replacement@,
        ));
    }
    while i < chars.len()
        invariant
            i <= chars.len(),
            chars@ == text@,
            pattern_chars@ == pattern@,
            pattern@.len() > 0,
            result@ + substituted(text@.skip(i as int), pattern@, replacement@) == substituted(
                text@,
                pattern@,
                replacement@,
            ),
        decreases chars.len() - i,
    {
        let ghost rest = text@.skip(i as int);
        if matches_at(&chars, &pattern_chars, i) {
            proof {
                assert(rest.subrange(0, pattern@.len() as int) =~= text@.subrange(
                    i as int,
                    i + pattern@.len(),
                ));
                assert(occurs_at(rest, pattern@, 0));
                assert(rest.skip(pattern@.len() as int) =~= text@.skip(i + pattern@.len()));
                assert((result@ + replacement@) + substituted(
                    text@.skip(i + pattern@.len()),
                    pattern@,
                    replacement@,
                ) =~= result@ + substituted(rest, pattern@, replacement@));
            }
            result.append(replacement);
            i += pattern_chars.len();
        } else {
            proof {
                assert(rest.skip(1) =~= text@.skip(i + 1));
                assert(rest[0] == text@[i as int]);
                if rest.len() >= pattern@.len() {
                    assert(rest.subrange(0, pattern@.len() as int) =~= text@.subrange(
                        i as int,
                        i + pattern@.len(),
                    ));
                    assert(!occurs_at(rest, pattern@, 0));
                } else {
                    lemma_substituted_short(rest.skip(1), pattern@, replacement@);
                    assert(seq![rest[0]] + rest.skip(1) =~= rest);
                }
                assert(substituted(rest, pattern@, replacement@) == seq![rest[0]] + substituted(
                    rest.skip(1),
                    pattern@,
                    replacement@,
                ));
                assert(result@.push(text@[i as int]) + substituted(
                    text@.skip(i + 1),
                    pattern@,
                    replacement@,
                ) =~= result@ + substituted(rest, pattern@, replacement@));
            }
            result.push(chars[i]);
            i += 1;
        }
    }
    proof {
        assert(text@.skip(text@.len() as int) =~= Seq::<char>::empty());
        assert(result@ + Seq::<char>::empty() =~= result@);
    }
    result
}

/// A text shorter than the pattern holds no occurrence and stays as it is.
proof fn lemma_substituted_short(text: Seq<char>, pattern: Seq<char>, replacement: Seq<char>)
    requires
        text.len() < pattern.len(),
    ensures
        substituted(text, pattern, replacement) == text,
{
}

/// The decimal numeral of `n`.
pub fn to_decimal(n: u64) -> (result: String)
    ensures
        result@ == decimal(n as nat),
    decreases n,
{
    if n < 10 {
        let mut result = String::new();
        result.push(digit_char(n));
        proof {
            assert(result@ =~= seq![digit(n as nat)]);
        }
        result
    } else {
        let mut result = to_decimal(n / 10);
        result.push(digit_char(n % 10));
        result
    }
}

/// The digit for a value below ten.
fn digit_char(d: u64) -> (c: char)
    requires
        d < 10,
    ensures
        c == digit(d as nat),
{
    if d == 0 {
        '0'
    } else if d == 1 {
        '1'
    } else if d == 2 {
        '2'
    } else if d == 3 {
        '3'
    } else if d == 4 {
        '4'
    } else if d == 5 {
        '5'
    } else if d == 6 {
        '6'
    } else if d == 7 {
        '7'
    } else if d == 8 {
        '8'
    } else {
        '9'
    }
}

} // verus!
