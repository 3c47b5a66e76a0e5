//! Plain text helpers for command-line words.

use vstd::prelude::*;
use vstd::string::StrSliceExecFns;

verus! {

/// The lower-case form of an ASCII capital letter; any other character as
/// it is.
pub open spec fn lower(c: char) -> char {
    if 'A' <= c && c <= 'Z' {
        ((c as u8) + 32) as char
    } else {
        c
    }
}

/// A text with its ASCII capital letters in lower case.
pub open spec fn to_ascii_lowercase(text: Seq<char>) -> Seq<char> {
    Seq::new(text.len(), |i: int| lower(text[i]))
}

/// The lower-case form of one character.
pub fn lower_char(c: char) -> (l: char)
    ensures
        l == lower(c),
{
    if 'A' <= c && c <= 'Z' {
        ((c as u8) + 32) as char
    } else {
        c
    }
}

/// The characters of `text`, with ASCII capital letters in lower case.
pub fn lowercase_chars(text: &str) -> (chars: Vec<char>)
    ensures
        chars@ == to_ascii_lowercase(text@),
{
    let len = text.unicode_len();
    let mut chars: Vec<char> = Vec::new();
    let mut i: usize = 0;
    while i < len
        invariant
            i <= len,
            len == text@.len(),
            chars@ == to_ascii_lowercase(text@.take(i as int)),
        decreases len - i,
    {
        chars.push(lower_char(text.get_char(i)));
        i += 1;
    }
    chars
}

/// Whether `chars` spell exactly `word`.
pub fn spells(chars: &Vec<char>, word: &str) -> (same: bool)
    ensures
        same == (chars@ == word@),
{
    let len = word.unicode_len();
    if chars.len() != len {
        return false;
    }
    let mut i: usize = 0;
    while i < len
        invariant
            i <= len,
            len == word@.len(),
            chars@.len() == len,
            forall|j: int| 0 <= j < i ==> chars@[j] == word@[j],
        decreases len - i,
    {
        if chars[i] != word.get_char(i) {
            return false;
        }
        i += 1;
    }
    assert(chars@ =~= word@);
    true
}

/// The characters of `text`.
pub fn chars_of(text: &str) -> (chars: Vec<char>)
    ensures
        chars@ == text@,
{
    let len = text.unicode_len();
    let mut chars: Vec<char> = Vec::new();
    let mut i: usize = 0;
    while i < len
        invariant
            i <= len,
            len == text@.len(),
            chars@ == text@.take(i as int),
        decreases len - i,
    {
        chars.push(text.get_char(i));
        i += 1;
    }
    chars
}

/// Whether `word` stands in `text` from place `at` on.
pub open spec fn occurs_at(text: Seq<char>, word: Seq<char>, at: int) -> bool {
    &&& 0 <= at
    &&& at + word.len() <= text.len()
    &&& text.subrange(at, at + word.len()) == word
}

/// Whether `word` stands somewhere in `text`.
pub open spec fn mentions(text: Seq<char>, word: Seq<char>) -> bool {
    exists|at: int| occurs_at(text, word, at)
}

/// Tells whether `word` stands in `text` from place `at` on.
fn matches_at(text: &Vec<char>, word: &Vec<char>, at: usize) -> (same: bool)
    requires
        at + word@.len() <= text@.len(),
    ensures
        same == occurs_at(text@, word@, at as int),
{
    let len = text.len();
    let mut i: usize = 0;
    while i < word.len()
        invariant
            i <= word@.len(),
            len == text@.len(),
            at + word@.len() <= len,
            forall|j: int| 0 <= j < i ==> text@[at + j] == word@[j],
        decreases word@.len() - i,
    {
        if text[at + i] != word[i] {
            return false;
        }
        i += 1;
    }
    assert(text@.subrange(at as int, at + word@.len()) =~= word@);
    true
}

/// Tells whether `word` stands somewhere in `text`.
pub fn contains(text: &str, word: &str) -> (found: bool)
    ensures
        found == mentions(text@, word@),
{
    let hay = chars_of(text);
    let needle = chars_of(word);
    if needle.len() > hay.len() {
        return false;
    }
    let last = hay.len() - needle.len();
    let mut at: usize = 0;
    loop
        invariant
            at <= last,
            last == hay@.len() - needle@.len(),
            hay@ == text@,
            needle@ == word@,
            forall|before: int| 0 <= before < at ==> !occurs_at(hay@, needle@, before),
        decreases last - at,
    {
        if matches_at(&hay, &needle, at) {
            return true;
        }
        if at == last {
            return false;
        }
        at += 1;
    }
}

/// How often `c` occurs in `text`.
pub open spec fn count_of(text: Seq<char>, c: char) -> nat
    decreases text.len(),
{
    if text.len() == 0 {
        0
    } else {
        count_of(text.drop_last(), c) + if text.last() == c {
            1nat
        } else {
            0nat
        }
    }
}

/// Counts the occurrences of `c` in `text`.
pub fn occurrences(text: &str, c: char) -> (count: usize)
    ensures
        count == count_of(text@, c),
{
    let len = text.unicode_len();
    let mut count: usize = 0;
    let mut i: usize = 0;
    while i < len
        invariant
            i <= len,
            len == text@.len(),
            count <= i,
            count == count_of(text@.take(i as int), c),
        decreases len - i,
    {
        assert(text@.take(i + 1).drop_last() =~= text@.take(i as int));
        if text.get_char(i) == c {
            count += 1;
        }
        i += 1;
    }
    assert(text@.take(len as int) =~= text@);
    count
}

/// The parts of `text` between the occurrences of `c`: one more than
/// there are occurrences, some of them empty where two occurrences meet
/// or one stands at an end.
pub open spec fn parts_between(text: Seq<char>, c: char) -> Seq<Seq<char>>
    decreases text.len(),
{
    if text.len() == 0 {
        seq![Seq::<char>::empty()]
    } else {
        let before = parts_between(text.drop_last(), c);
        if text.last() == c {
            before.push(Seq::<char>::empty())
        } else {
            before.drop_last().push(before.last().push(text.last()))
        }
    }
}

/// There is one part more than there are separators.
pub proof fn lemma_parts_count(text: Seq<char>, c: char)
    ensures
        parts_between(text, c).len() == count_of(text, c) + 1,
    decreases text.len(),
{
    if text.len() > 0 {
        lemma_parts_count(text.drop_last(), c);
    }
}

/// Splits `text` at every occurrence of `c`.
pub fn split<'a>(text: &'a str, c: char) -> (parts: Vec<&'a str>)
    ensures
        parts@.len() == count_of(text@, c) + 1,
        Seq::new(parts@.len(), |i: int| parts@[i]@) == parts_between(text@, c),
{
    let len = text.unicode_len();
    let mut parts: Vec<&'a str> = Vec::new();
    let mut from: usize = 0;
    let mut i: usize = 0;
    assert(text@.subrange(0, 0) =~= Seq::<char>::empty());
    assert(Seq::new(parts@.len(), |j: int| parts@[j]@).push(text@.subrange(0, 0)) =~= seq![
        Seq::<char>::empty(),
    ]);
    while i < len
        invariant
            from <= i <= len,
            len == text@.len(),
            Seq::new(parts@.len(), |j: int| parts@[j]@).push(text@.subrange(from as int, i as int))
                == parts_between(text@.take(i as int), c),
        decreases len - i,
    {
        let ghost open = text@.subrange(from as int, i as int);
        assert(text@.take(i + 1).drop_last() =~= text@.take(i as int));
        if text.get_char(i) == c {
            parts.push(text.substring_char(from, i));
            from = i + 1;
            assert(text@.subrange(from as int, i + 1) =~= Seq::<char>::empty());
        } else {
            assert(text@.subrange(from as int, i + 1) =~= open.push(text@[i as int]));
        }
        i += 1;
    }
    assert(text@.take(len as int) =~= text@);
    let ghost closed = Seq::new(parts@.len(), |j: int| parts@[j]@);
    parts.push(text.substring_char(from, len));
    assert(Seq::new(parts@.len(), |j: int| parts@[j]@) =~= closed.push(
        text@.subrange(from as int, len as int),
    ));
    proof {
        lemma_parts_count(text@, c);
    }
    parts
}

} // verus!
