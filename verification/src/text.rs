//! Text as sequences of characters: conversion, comparison and search.
//!
//! Contracts speak of a text through its view, a `Seq<char>`.

use vstd::prelude::*;
use vstd::string::*;

verus! {

/// `String::push` of the standard library: appends the character `c` to the
/// end of `s` and leaves the characters before it untouched.
pub assume_specification[ String::push ](s: &mut String, c: char)
    ensures
        final(s)@ == old(s)@.push(c),
;

/// The views of a sequence of texts, in the same order.
pub open spec fn texts(v: Seq<String>) -> Seq<Seq<char>> {
    Seq::new(v.len(), |i: int| v[i]@)
}

/// The lower-case form of a text, as `str::to_lowercase` of the standard
/// library gives it: a function of the text alone, defined by the Unicode
/// tables that the library was built with.
pub uninterp spec fn lowered(s: Seq<char>) -> Seq<char>;

/// The upper-case form of a text, as `str::to_uppercase` of the standard
/// library gives it: a function of the text alone, defined by the Unicode
/// tables that the library was built with.
pub uninterp spec fn raised(s: Seq<char>) -> Seq<char>;

/// Whether a character is white space, as `char::is_whitespace` of the
/// standard library says: a function of the character alone, defined by the
/// Unicode tables that the library was built with.
pub uninterp spec fn is_space(c: char) -> bool;

/// `str::to_lowercase` of the standard library: the result is the
/// lower-case form of the text.  Nothing more is claimed of it.
#[verifier::external_body]
pub(crate) fn to_lower(s: &str) -> (r: String)
    ensures
        r@ == lowered(s@),
{
    s.to_lowercase()
}

/// `str::to_uppercase` of the standard library: the result is the
/// upper-case form of the text.  Nothing more is claimed of it.
#[verifier::external_body]
pub(crate) fn to_upper(s: &str) -> (r: String)
    ensures
        r@ == raised(s@),
{
    s.to_uppercase()
}

/// `char::is_whitespace` of the standard library: the result says whether
/// the character is white space.  Nothing more is claimed of it.
#[verifier::external_body]
pub(crate) fn is_space_char(c: char) -> (space: bool)
    ensures
        space == is_space(c),
{
    c.is_whitespace()
}

/// Whether `needle` stands in `hay` at position `at`.
pub open spec fn occurs_at(needle: Seq<char>, hay: Seq<char>, at: int) -> bool {
    0 <= at && at + needle.len() <= hay.len() && hay.subrange(at, at + needle.len()) == needle
}

/// Whether `needle` stands somewhere in `hay`.
pub open spec fn occurs_in(needle: Seq<char>, hay: Seq<char>) -> bool {
    exists|at: int| occurs_at(needle, hay, at)
}

/// The characters of a text.
pub fn to_chars(s: &str) -> (v: Vec<char>)
    ensures
        v@ == s@,
{
    let mut v: Vec<char> = Vec::new();
    for c in it: s.chars()
        invariant
            v@ == it.seq().take(it.index() as int),
            it.seq() == s@,
    {
        v.push(c);
    }
    v
}

/// The text made of the given characters.
pub fn from_chars(chars: &Vec<char>) -> (s: String)
    ensures
        s@ == chars@,
{
    let mut s = String::new();
    let mut i: usize = 0;
    while i < chars.len()
        invariant
            i <= chars.len(),
            s@ == chars@.take(i as int),
        decreases chars.len() - i,
    {
        s.push(chars[i]);
        proof {
            assert(chars@.take(i + 1) =~= chars@.take(i as int).push(chars@[i as int]));
        }
        i += 1;
    }
    proof {
        assert(chars@.take(i as int) =~= chars@);
    }
    s
}

/// Whether two sequences of characters are the same.
pub fn same_chars(a: &Vec<char>, b: &Vec<char>) -> (same: bool)
    ensures
        same == (a@ == b@),
{
    if a.len() != b.len() {
        return false;
    }
    let mut i: usize = 0;
    while i < a.len()
        invariant
            a.len() == b.len(),
            i <= a.len(),
            forall|j: int| 0 <= j < i ==> a@[j] == b@[j],
        decreases a.len() - i,
    {
        if a[i] != b[i] {
            return false;
        }
        i += 1;
    }
    proof {
        assert(a@ =~= b@);
    }
    true
}

/// Whether two texts are the same, character by character.
pub fn same_text(a: &str, b: &str) -> (same: bool)
    ensures
        same == (a@ == b@),
{
    let x = to_chars(a);
    let y = to_chars(b);
    same_chars(&x, &y)
}

/// The characters of the lower-case form of a text.
pub(crate) fn lowered_chars(s: &str) -> (v: Vec<char>)
    ensures
        v@ == lowered(s@),
{
    let lower = to_lower(s);
    to_chars(lower.as_str())
}

/// Whether `needle` stands in `hay` at position `at`.
fn chars_occur_at(needle: &Vec<char>, hay: &Vec<char>, at: usize) -> (found: bool)
    requires
        at + needle.len() <= hay.len(),
    ensures
        found == occurs_at(needle@, hay@, at as int),
{
    let mut i: usize = 0;
    while i < needle.len()
        invariant
            at + needle.len() <= hay.len(),
            i <= needle.len(),
            forall|j: int| 0 <= j < i ==> hay@[at + j] == needle@[j],
        decreases needle.len() - i,
    {
        if hay[at + i] != needle[i] {
            proof {
                let window = hay@.subrange(at as int, at + needle.len());
                assert(window[i as int] == hay@[at + i]);
            }
            return false;
        }
        i += 1;
    }
    proof {
        assert(hay@.subrange(at as int, at + needle.len()) =~= needle@);
    }
    true
}

/// Whether `needle` stands somewhere in `hay`.
pub fn chars_occur_in(needle: &Vec<char>, hay: &Vec<char>) -> (found: bool)
    ensures
        found == occurs_in(needle@, hay@),
{
    if needle.len() > hay.len() {
        return false;
    }
    let last = hay.len() - needle.len();
    let mut at: usize = 0;
    while at < last
        invariant
            last == hay.len() - needle.len(),
            at <= last,
            forall|k: int| 0 <= k < at ==> !occurs_at(needle@, hay@, k),
        decreases last - at,
    {
        if chars_occur_at(needle, hay, at) {
            return true;
        }
        at += 1;
    }
    chars_occur_at(needle, hay, last)
}

/// Whether the text `s` is one of the texts in `list`.
pub fn contains_text(list: &Vec<String>, s: &str) -> (found: bool)
    ensures
        found == texts(list@).contains(s@),
{
    let wanted = to_chars(s);
    let mut i: usize = 0;
    while i < list.len()
        invariant
            wanted@ == s@,
            i <= list.len(),
            forall|j: int| 0 <= j < i ==> list@[j]@ != s@,
        decreases list.len() - i,
    {
        let item = to_chars(list[i].as_str());
        if same_chars(&item, &wanted) {
            proof {
                assert(texts(list@)[i as int] == s@);
            }
            return true;
        }
        i += 1;
    }
    false
}

/// A copy of a list of texts.
pub fn clone_texts(list: &Vec<String>) -> (copy: Vec<String>)
    ensures
        texts(copy@) == texts(list@),
{
    let mut copy: Vec<String> = Vec::new();
    let mut i: usize = 0;
    while i < list.len()
        invariant
            i <= list.len(),
            copy.len() == i,
            texts(copy@) == texts(list@).take(i as int),
        decreases list.len() - i,
    {
        let ghost before = copy@;
        copy.push(list[i].clone());
        proof {
            assert forall|j: int| 0 <= j < i + 1 implies texts(copy@)[j] == texts(list@)[j] by {
                if j < i {
                    assert(copy@[j] == before[j]);
                    assert(texts(before)[j] == texts(list@).take(i as int)[j]);
                }
            }
            assert(texts(copy@) =~= texts(list@).take(i + 1));
        }
        i += 1;
    }
    proof {
        assert(texts(list@).take(i as int) =~= texts(list@));
    }
    copy
}

/// Position of the first `c` in `s`, or `s.len()` if there is none.
pub open spec fn position_of(s: Seq<char>, c: char) -> int
    decreases s.len(),
{
    if s.len() == 0 {
        0
    } else if s[0] == c {
        0
    } else {
        1 + position_of(s.drop_first(), c)
    }
}

/// The first `c` lies within the text, is a `c`, and has none before it.
pub proof fn lemma_position_of(s: Seq<char>, c: char)
    ensures
        0 <= position_of(s, c) <= s.len(),
        position_of(s, c) < s.len() ==> s[position_of(s, c)] == c,
        forall|j: int| 0 <= j < position_of(s, c) ==> #[trigger] s[j] != c,
    decreases s.len(),
{
    if s.len() > 0 && s[0] != c {
        let rest = s.drop_first();
        lemma_position_of(rest, c);
        assert forall|j: int| 0 <= j < position_of(s, c) implies #[trigger] s[j] != c by {
            if j > 0 {
                assert(s[j] == rest[j - 1]);
            }
        }
    }
}

/// A position that holds `c` and has none before it is the first.
pub proof fn lemma_position_of_is(s: Seq<char>, c: char, k: int)
    requires
        0 <= k <= s.len(),
        k < s.len() ==> s[k] == c,
        forall|j: int| 0 <= j < k ==> #[trigger] s[j] != c,
    ensures
        position_of(s, c) == k,
{
    lemma_position_of(s, c);
    let p = position_of(s, c);
    if p < k {
        assert(s[p] != c);
    }
}

/// Position of the first `c` among the characters, or their number if there
/// is none.
pub fn find_char(chars: &Vec<char>, c: char) -> (at: usize)
    ensures
        at == position_of(chars@, c),
        at <= chars.len(),
{
    let mut i: usize = 0;
    while i < chars.len()
        invariant
            i <= chars.len(),
            forall|j: int| 0 <= j < i ==> #[trigger] chars@[j] != c,
        decreases chars.len() - i,
    {
        if chars[i] == c {
            proof {
                lemma_position_of_is(chars@, c, i as int);
            }
            return i;
        }
        i += 1;
    }
    proof {
        lemma_position_of_is(chars@, c, i as int);
    }
    i
}

/// The text made of the characters `from..to`.
pub fn text_of_range(chars: &Vec<char>, from: usize, to: usize) -> (s: String)
    requires
        from <= to <= chars.len(),
    ensures
        s@ == chars@.subrange(from as int, to as int),
{
    let mut s = String::new();
    let mut i: usize = from;
    while i < to
        invariant
            from <= i <= to <= chars.len(),
            s@ == chars@.subrange(from as int, i as int),
        decreases to - i,
    {
        s.push(chars[i]);
        proof {
            assert(chars@.subrange(from as int, i + 1) =~= chars@.subrange(
                from as int,
                i as int,
            ).push(chars@[i as int]));
        }
        i += 1;
    }
    s
}

/// Two texts with `separator` between them.
pub fn join_with(first: &str, separator: char, second: &str) -> (joined: String)
    ensures
        joined@ == first@.push(separator) + second@,
{
    let mut joined = String::from_str(first);
    joined.push(separator);
    joined.append(second);
    joined
}

/// Whether a character has a meaning in the markup of messages and is
/// escaped before a message is sent.
pub open spec fn is_markup(c: char) -> bool {
    c == '.' || c == '-' || c == '(' || c == ')' || c == '!' || c == '>' || c == '<' || c == '+'
        || c == '$' || c == '%' || c == '#' || c == '{' || c == '}' || c == '=' || c == '|' || c
        == '~' || c == '`' || c == '*' || c == '[' || c == ']' || c == '_'
}

/// A text with a backslash before each character of the markup.
pub open spec fn escaped(s: Seq<char>) -> Seq<char>
    decreases s.len(),
{
    if s.len() == 0 {
        Seq::<char>::empty()
    } else if is_markup(s.last()) {
        escaped(s.drop_last()).push('\\').push(s.last())
    } else {
        escaped(s.drop_last()).push(s.last())
    }
}

/// Whether a character has a meaning in the markup of messages.
pub fn is_markup_char(c: char) -> (markup: bool)
    ensures
        markup == is_markup(c),
{
    c == '.' || c == '-' || c == '(' || c == ')' || c == '!' || c == '>' || c == '<' || c == '+'
        || c == '$' || c == '%' || c == '#' || c == '{' || c == '}' || c == '=' || c == '|' || c
        == '~' || c == '`' || c == '*' || c == '[' || c == ']' || c == '_'
}

/// A message with a backslash before each character of the markup, so that
/// the message is shown letter for letter.
pub fn escape_markdown(text: &str) -> (safe: String)
    ensures
        safe@ == escaped(text@),
{
    let chars = to_chars(text);
    let mut safe = String::new();
    let mut i: usize = 0;
    while i < chars.len()
        invariant
            chars@ == text@,
            i <= chars.len(),
            safe@ == escaped(text@.take(i as int)),
        decreases chars.len() - i,
    {
        proof {
            assert(text@.take(i + 1).drop_last() =~= text@.take(i as int));
            assert(text@.take(i + 1).last() == chars@[i as int]);
        }
        let c = chars[i];
        if is_markup_char(c) {
            safe.push('\\');
        }
        safe.push(c);
        i += 1;
    }
    proof {
        assert(text@.take(i as int) =~= text@);
    }
    safe
}

/// Position of the first white space at or after `from`, or the length of the
/// text if there is none.
pub open spec fn word_end(s: Seq<char>, from: int) -> int
    decreases s.len() - from,
{
    if from < 0 || from >= s.len() || is_space(s[from]) {
        from
    } else {
        word_end(s, from + 1)
    }
}

/// Whether a word begins at `at`: the character there is no white space, and
/// the text begins there or the character before it is white space.
pub open spec fn starts_word(s: Seq<char>, at: int) -> bool {
    0 <= at < s.len() && !is_space(s[at]) && (at == 0 || is_space(s[at - 1]))
}

/// The words that begin at or after `from`, in their order.
pub open spec fn words_from(s: Seq<char>, from: int) -> Seq<Seq<char>>
    decreases s.len() - from,
{
    if from < 0 || from >= s.len() {
        Seq::<Seq<char>>::empty()
    } else if starts_word(s, from) {
        seq![s.subrange(from, word_end(s, from))] + words_from(s, from + 1)
    } else {
        words_from(s, from + 1)
    }
}

/// The words of a text: its longest runs of characters that are no white
/// space, in their order.
pub open spec fn words(s: Seq<char>) -> Seq<Seq<char>> {
    words_from(s, 0)
}

/// Position of the first white space at or after `from`.
fn find_word_end(chars: &Vec<char>, from: usize) -> (end: usize)
    requires
        from <= chars.len(),
    ensures
        end == word_end(chars@, from as int),
        from <= end <= chars.len(),
{
    let mut i: usize = from;
    while i < chars.len() && !is_space_char(chars[i])
        invariant
            from <= i <= chars.len(),
            word_end(chars@, from as int) == word_end(chars@, i as int),
        decreases chars.len() - i,
    {
        i += 1;
    }
    i
}

/// The words of a text.
pub fn split_words(text: &str) -> (list: Vec<String>)
    ensures
        texts(list@) == words(text@),
{
    let chars = to_chars(text);
    let mut list: Vec<String> = Vec::new();
    let mut i: usize = 0;
    while i < chars.len()
        invariant
            chars@ == text@,
            i <= chars.len(),
            texts(list@) + words_from(text@, i as int) == words(text@),
        decreases chars.len() - i,
    {
        let begins = !is_space_char(chars[i]) && (i == 0 || is_space_char(chars[i - 1]));
        if begins {
            let end = find_word_end(&chars, i);
            let word = text_of_range(&chars, i, end);
            let ghost before = list@;
            list.push(word);
            proof {
                assert(texts(list@) =~= texts(before).push(word@));
                assert(texts(before).push(word@) + words_from(text@, i + 1) =~= texts(before) + (
                seq![word@] + words_from(text@, i + 1)));
            }
        }
        i += 1;
    }
    proof {
        assert(texts(list@) + Seq::<Seq<char>>::empty() =~= texts(list@));
    }
    list
}

} // verus!
