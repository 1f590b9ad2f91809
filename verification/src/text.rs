//! Text as sequences of characters: conversion, search, replacement, line
//! counting and decimal numerals.

use vstd::prelude::*;

verus! {

/// `needle` stands in `text` at index `i`.
pub open spec fn occurs_at(text: Seq<char>, i: int, needle: Seq<char>) -> bool {
    &&& 0 <= i
    &&& i + needle.len() <= text.len()
    &&& text.subrange(i, i + needle.len()) == needle
}

/// `needle` stands somewhere in `text`.
pub open spec fn has_occurrence(text: Seq<char>, needle: Seq<char>) -> bool {
    exists|i: int| occurs_at(text, i, needle)
}

/// `text` with every occurrence of `from` replaced by `to`, the occurrences
/// taken from the left and not overlapping. An empty `from` replaces nothing.
pub open spec fn replaced(text: Seq<char>, from: Seq<char>, to: Seq<char>) -> Seq<char>
    decreases text.len(),
{
    if from.len() == 0 || text.len() < from.len() {
        text
    } else if text.subrange(0, from.len() as int) == from {
        to + replaced(text.subrange(from.len() as int, text.len() as int), from, to)
    } else {
        seq![text[0]] + replaced(text.subrange(1, text.len() as int), from, to)
    }
}

/// The number of line feeds in `text`.
pub open spec fn line_feeds(text: Seq<char>) -> nat
    decreases text.len(),
{
    if text.len() == 0 {
        0
    } else {
        line_feeds(text.drop_last()) + if text.last() == '\n' {
            1nat
        } else {
            0nat
        }
    }
}

/// The number of lines of `text`: each line feed ends a line, and what follows
/// the last line feed is a line of its own unless it is empty.
pub open spec fn line_count(text: Seq<char>) -> nat {
    line_feeds(text) + if text.len() > 0 && text.last() != '\n' {
        1nat
    } else {
        0nat
    }
}

/// The character of the decimal digit `d`.
pub open spec fn digit(d: nat) -> char {
    ((48 + d) as u8) as char
}

/// The decimal numeral of `n`, without leading zeros.
pub open spec fn decimal(n: nat) -> Seq<char>
    decreases n,
{
    if n < 10 {
        seq![digit(n)]
    } else {
        decimal(n / 10).push(digit(n % 10))
    }
}

/// The bytes of `bytes` read one by one as the characters of the same numbers.
pub open spec fn widened(bytes: Seq<u8>) -> Seq<char> {
    Seq::new(bytes.len(), |i: int| bytes[i] as char)
}

/// What stands in a text stands in it at the same index when more text
/// follows, and what stands in the longer text within the bounds of the shorter
/// stands in the shorter.
pub proof fn lemma_occurrence_in_extension(
    text: Seq<char>,
    more: Seq<char>,
    i: int,
    needle: Seq<char>,
)
    requires
        0 <= i,
        i + needle.len() <= text.len(),
    ensures
        occurs_at(text + more, i, needle) == occurs_at(text, i, needle),
{
    assert((text + more).subrange(i, i + needle.len()) =~= text.subrange(i, i + needle.len()));
}

/// The characters of `s`, in order.
pub fn chars_of(s: &str) -> (v: Vec<char>)
    ensures
        v@ == s@,
{
    let mut v: Vec<char> = Vec::new();
    for c in it: s.chars()
        invariant
            it.seq() == s@,
            v@ == it.seq().take(it.index()),
    {
        v.push(c);
    }
    v
}

/// `String::push`: the string afterwards is the string before with `c` added at
/// its end.
#[verifier::external_body]
fn push_char(s: &mut String, c: char)
    ensures
        final(s)@ == old(s)@.push(c),
{
    s.push(c)
}

/// The string that holds the characters of `v`, in order.
pub fn string_of(v: &Vec<char>) -> (s: String)
    ensures
        s@ == v@,
{
    let mut s = String::new();
    let mut i: usize = 0;
    while i < v.len()
        invariant
            i <= v.len(),
            s@ == v@.take(i as int),
        decreases v.len() - i,
    {
        push_char(&mut s, v[i]);
        i += 1;
    }
    s
}

/// Adds to `out` the characters of `more`.
pub fn extend_chars(out: &mut Vec<char>, more: &Vec<char>)
    ensures
        final(out)@ == old(out)@ + more@,
{
    let mut i: usize = 0;
    while i < more.len()
        invariant
            i <= more.len(),
            out@ == old(out)@ + more@.take(i as int),
        decreases more.len() - i,
    {
        out.push(more[i]);
        i += 1;
    }
}

/// Adds to `out` the bytes of `bytes`, each as the character of the same number.
pub fn extend_widened(out: &mut Vec<char>, bytes: &[u8])
    ensures
        final(out)@ == old(out)@ + widened(bytes@),
{
    let mut i: usize = 0;
    while i < bytes.len()
        invariant
            i <= bytes.len(),
            out@ == old(out)@ + widened(bytes@.take(i as int)),
        decreases bytes.len() - i,
    {
        assert(widened(bytes@.take(i + 1)) =~= widened(bytes@.take(i as int)).push(
            bytes@[i as int] as char,
        ));
        out.push(bytes[i] as char);
        i += 1;
    }
    assert(bytes@.take(bytes.len() as int) =~= bytes@);
}

/// Whether `needle` stands in `text` at index `i`.
pub fn matches_at(text: &Vec<char>, i: usize, needle: &Vec<char>) -> (found: bool)
    ensures
        found == occurs_at(text@, i as int, needle@),
{
    if needle.len() > text.len() || i > text.len() - needle.len() {
        return false;
    }
    let mut j: usize = 0;
    while j < needle.len()
        invariant
            j <= needle.len(),
            i + needle.len() <= text.len(),
            forall|k: int| 0 <= k < j ==> text@[i + k] == needle@[k],
        decreases needle.len() - j,
    {
        if text[i + j] != needle[j] {
            assert(text@.subrange(i as int, i + needle.len())[j as int] == text@[i + j]);
            return false;
        }
        j += 1;
    }
    assert(text@.subrange(i as int, i + needle.len()) =~= needle@);
    true
}

/// The first index at or after `from` at which `needle` stands in `text`.
pub fn find_from(text: &Vec<char>, from: usize, needle: &Vec<char>) -> (found: Option<usize>)
    ensures
        match found {
            Some(i) => {
                &&& from <= i
                &&& occurs_at(text@, i as int, needle@)
                &&& forall|j: int| from <= j < i ==> !occurs_at(text@, j, needle@)
            },
            None => forall|j: int| from <= j ==> !occurs_at(text@, j, needle@),
        },
{
    if needle.len() > text.len() {
        return None;
    }
    let last: usize = text.len() - needle.len();
    let mut i: usize = from;
    while i <= last
        invariant
            from <= i,
            last == text.len() - needle.len(),
            forall|j: int| from <= j < i ==> !occurs_at(text@, j, needle@),
        decreases last - i,
    {
        if matches_at(text, i, needle) {
            return Some(i);
        }
        if i == last {
            return None;
        }
        i += 1;
    }
    None
}

/// `text` with every occurrence of `from` replaced by `to`.
pub fn replace_all(text: &Vec<char>, from: &Vec<char>, to: &Vec<char>) -> (out: Vec<char>)
    ensures
        out@ == replaced(text@, from@, to@),
{
    let mut out: Vec<char> = Vec::new();
    if from.len() == 0 {
        extend_chars(&mut out, text);
        return out;
    }
    let mut i: usize = 0;
    assert(text@.subrange(0, text.len() as int) =~= text@);
    assert(out@ + replaced(text@, from@, to@) =~= replaced(text@, from@, to@));
    while i < text.len() && text.len() - i >= from.len()
        invariant
            i <= text.len(),
            from.len() > 0,
            out@ + replaced(text@.subrange(i as int, text.len() as int), from@, to@) == replaced(
                text@,
                from@,
                to@,
            ),
        decreases text.len() - i,
    {
        let ghost rest = text@.subrange(i as int, text.len() as int);
        let ghost before = out@;
        if matches_at(text, i, from) {
            extend_chars(&mut out, to);
            proof {
                assert(rest.subrange(0, from.len() as int) =~= text@.subrange(
                    i as int,
                    i + from.len(),
                ));
                assert(rest.subrange(from.len() as int, rest.len() as int) =~= text@.subrange(
                    i + from.len(),
                    text.len() as int,
                ));
                let tail = replaced(
                    text@.subrange(i + from.len(), text.len() as int),
                    from@,
                    to@,
                );
                assert(replaced(rest, from@, to@) == to@ + tail);
                assert(before + (to@ + tail) =~= (before + to@) + tail);
            }
            i += from.len();
        } else {
            out.push(text[i]);
            proof {
                assert(rest.subrange(0, from.len() as int) =~= text@.subrange(
                    i as int,
                    i + from.len(),
                ));
                assert(rest.subrange(1, rest.len() as int) =~= text@.subrange(
                    i + 1,
                    text.len() as int,
                ));
                let tail = replaced(text@.subrange(i + 1, text.len() as int), from@, to@);
                assert(replaced(rest, from@, to@) == seq![rest[0]] + tail);
                assert(before + (seq![rest[0]] + tail) =~= before.push(text@[i as int]) + tail);
            }
            i += 1;
        }
    }
    let ghost done = out@;
    let ghost rest = text@.subrange(i as int, text.len() as int);
    assert(replaced(rest, from@, to@) == rest);
    while i < text.len()
        invariant
            i <= text.len(),
            out@ + text@.subrange(i as int, text.len() as int) == done + rest,
        decreases text.len() - i,
    {
        let ghost before = out@;
        let ghost tail = text@.subrange(i as int, text.len() as int);
        out.push(text[i]);
        assert(before + tail =~= before.push(text@[i as int]) + text@.subrange(
            i + 1,
            text.len() as int,
        ));
        i += 1;
    }
    assert(out@ + text@.subrange(i as int, text.len() as int) =~= out@);
    out
}

/// The number of lines of `text`.
pub fn count_lines(text: &Vec<char>) -> (n: usize)
    ensures
        n == line_count(text@),
{
    let mut feeds: usize = 0;
    let mut i: usize = 0;
    while i < text.len()
        invariant
            i <= text.len(),
            feeds == line_feeds(text@.take(i as int)),
            feeds <= i,
        decreases text.len() - i,
    {
        assert(text@.take(i + 1).drop_last() =~= text@.take(i as int));
        if text[i] == '\n' {
            feeds += 1;
        }
        i += 1;
    }
    assert(text@.take(text.len() as int) =~= text@);
    if text.len() > 0 && text[text.len() - 1] != '\n' {
        proof {
            assert(text@.drop_last() =~= text@.take(text.len() - 1));
            lemma_line_feeds_bound(text@.drop_last());
        }
        feeds + 1
    } else {
        feeds
    }
}

/// A text holds no more line feeds than characters.
pub proof fn lemma_line_feeds_bound(text: Seq<char>)
    ensures
        line_feeds(text) <= text.len(),
    decreases text.len(),
{
    if text.len() > 0 {
        lemma_line_feeds_bound(text.drop_last());
    }
}

/// The decimal numeral of `n`.
pub fn decimal_of(n: u128) -> (v: Vec<char>)
    ensures
        v@ == decimal(n as nat),
    decreases n,
{
    if n < 10 {
        let d: u8 = n as u8;
        let mut v: Vec<char> = Vec::new();
        v.push((48 + d) as char);
        assert(v@ =~= seq![digit(n as nat)]);
        v
    } else {
        let mut v = decimal_of(n / 10);
        let d: u8 = (n % 10) as u8;
        v.push((48 + d) as char);
        v
    }
}

/// Whether `a` and `b` are the same text.
pub fn same_text(a: &str, b: &str) -> (same: bool)
    ensures
        same == (a@ == b@),
{
    let left = chars_of(a);
    let right = chars_of(b);
    if left.len() != right.len() {
        return false;
    }
    let mut i: usize = 0;
    while i < left.len()
        invariant
            i <= left.len(),
            left.len() == right.len(),
            left@ == a@,
            right@ == b@,
            forall|k: int| 0 <= k < i ==> left@[k] == right@[k],
        decreases left.len() - i,
    {
        if left[i] != right[i] {
            return false;
        }
        i += 1;
    }
    assert(left@ =~= right@);
    true
}

/// The texts that `names` holds, in order.
pub open spec fn texts(names: Seq<String>) -> Seq<Seq<char>> {
    Seq::new(names.len(), |i: int| names[i]@)
}

/// Whether `name` is one of `names`.
pub fn holds_name(names: &Vec<String>, name: &str) -> (found: bool)
    ensures
        found == texts(names@).contains(name@),
{
    let mut i: usize = 0;
    while i < names.len()
        invariant
            i <= names.len(),
            forall|k: int| 0 <= k < i ==> texts(names@)[k] != name@,
        decreases names.len() - i,
    {
        if same_text(names[i].as_str(), name) {
            assert(texts(names@)[i as int] == name@);
            return true;
        }
        i += 1;
    }
    false
}

} // verus!
