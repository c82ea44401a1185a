//! Character-level helpers for the strings the editor handles.

use vstd::prelude::*;
use vstd::string::StrSliceExecFns;

verus! {

/// `String::push` appends one character to the end of the string.
pub assume_specification[ String::push ](s: &mut String, ch: char)
    ensures
        final(s)@ == old(s)@.push(ch),
;

/// The characters of `s`, in order.
pub fn chars_of(s: &str) -> (v: Vec<char>)
    ensures
        v@ == s@,
{
    let mut v: Vec<char> = Vec::new();
    for c in it: s.chars()
        invariant
            it.seq() == s@,
            v@ == it.seq().take(it.index() as int),
    {
        v.push(c);
    }
    v
}

/// The string made of the characters `v[from..to]`.
pub fn string_of(v: &Vec<char>, from: usize, to: usize) -> (s: String)
    requires
        from <= to <= v.len(),
    ensures
        s@ == v@.subrange(from as int, to as int),
{
    let mut s = String::new();
    let mut i: usize = from;
    while i < to
        invariant
            from <= i <= to <= v.len(),
            s@ == v@.subrange(from as int, i as int),
        decreases to - i,
    {
        s.push(v[i]);
        i += 1;
    }
    s
}

/// The characters of a string that may be missing.
pub open spec fn text_of(s: Option<String>) -> Option<Seq<char>> {
    match s {
        Some(text) => Some(text@),
        None => None,
    }
}

/// The character sequences of a list of strings.
pub open spec fn texts(v: Seq<String>) -> Seq<Seq<char>> {
    Seq::new(v.len(), |i: int| v[i]@)
}

/// The pieces of `s` between its spaces: one more piece than there are
/// spaces, empty pieces included, so that an empty text is one empty piece.
pub open spec fn split_on_space(s: Seq<char>) -> Seq<Seq<char>>
    decreases s.len(),
{
    if s.len() == 0 {
        seq![Seq::<char>::empty()]
    } else {
        let front = split_on_space(s.drop_last());
        if s.last() == ' ' {
            front.push(Seq::<char>::empty())
        } else {
            front.drop_last().push(front.last().push(s.last()))
        }
    }
}

/// Where the word that holds position `pos` begins: just after the nearest
/// space before `pos`, or at the start of the text.
pub open spec fn word_start(s: Seq<char>, pos: int) -> int
    decreases pos,
{
    if pos <= 0 {
        0
    } else if s[pos - 1] == ' ' {
        pos
    } else {
        word_start(s, pos - 1)
    }
}

/// Where the word that holds position `pos` ends: at the nearest space from
/// `pos` on, or at the end of the text.
pub open spec fn word_end(s: Seq<char>, pos: int) -> int
    decreases s.len() - pos,
{
    if pos >= s.len() {
        s.len() as int
    } else if s[pos] == ' ' {
        pos
    } else {
        word_end(s, pos + 1)
    }
}

/// `s` without its last character where that is a line feed, else `s`.
pub open spec fn without_newline(s: Seq<char>) -> Seq<char> {
    if s.len() > 0 && s.last() == '\n' {
        s.drop_last()
    } else {
        s
    }
}

/// What is left of `full` after as many characters as `typed` has; nothing
/// where `full` is the shorter.
pub open spec fn untyped_suffix(full: Seq<char>, typed: Seq<char>) -> Seq<char> {
    if typed.len() <= full.len() {
        full.subrange(typed.len() as int, full.len() as int)
    } else {
        Seq::<char>::empty()
    }
}

/// Splitting always yields at least one piece.
pub proof fn lemma_split_nonempty(s: Seq<char>)
    ensures
        split_on_space(s).len() >= 1,
    decreases s.len(),
{
    if s.len() > 0 {
        lemma_split_nonempty(s.drop_last());
    }
}

/// A word begins at or before the position it is found from, and just after
/// a space unless it begins the text.
pub proof fn lemma_word_start(s: Seq<char>, pos: int)
    requires
        0 <= pos <= s.len(),
    ensures
        0 <= word_start(s, pos) <= pos,
        word_start(s, pos) > 0 ==> s[word_start(s, pos) - 1] == ' ',
    decreases pos,
{
    if pos > 0 && s[pos - 1] != ' ' {
        lemma_word_start(s, pos - 1);
    }
}

/// The word found from the end of a text ends there.
pub proof fn lemma_word_end_at_end(s: Seq<char>)
    ensures
        word_end(s, s.len() as int) == s.len(),
{
}

/// The position where the word that holds `pos` begins.
pub fn find_word_start(v: &Vec<char>, pos: usize) -> (start: usize)
    requires
        pos <= v.len(),
    ensures
        start == word_start(v@, pos as int),
        start <= pos,
{
    let mut i: usize = pos;
    while i > 0 && v[i - 1] != ' '
        invariant
            i <= pos <= v.len(),
            word_start(v@, pos as int) == word_start(v@, i as int),
        decreases i,
    {
        i -= 1;
    }
    i
}

/// The position where the word that holds `pos` ends.
pub fn find_word_end(v: &Vec<char>, pos: usize) -> (end: usize)
    requires
        pos <= v.len(),
    ensures
        end == word_end(v@, pos as int),
        pos <= end <= v.len(),
{
    let mut i: usize = pos;
    while i < v.len() && v[i] != ' '
        invariant
            pos <= i <= v.len(),
            word_end(v@, pos as int) == word_end(v@, i as int),
        decreases v.len() - i,
    {
        i += 1;
    }
    i
}

/// The pieces of `v[..upto]` between its spaces.
pub fn split_words(v: &Vec<char>, upto: usize) -> (words: Vec<String>)
    requires
        upto <= v.len(),
    ensures
        texts(words@) == split_on_space(v@.take(upto as int)),
{
    let mut words: Vec<String> = Vec::new();
    let mut word = String::new();
    let mut i: usize = 0;
    while i < upto
        invariant
            i <= upto <= v.len(),
            texts(words@).push(word@) == split_on_space(v@.take(i as int)),
        decreases upto - i,
    {
        let c = v[i];
        proof {
            let next = v@.take(i + 1);
            assert(next.drop_last() =~= v@.take(i as int));
        }
        if c == ' ' {
            words.push(word);
            word = String::new();
        } else {
            word.push(c);
        }
        i += 1;
    }
    words.push(word);
    words
}

/// `s` without one trailing line feed, if it ends in one.
pub fn strip_newline(s: &str) -> (r: String)
    ensures
        r@ == without_newline(s@),
{
    let v = chars_of(s);
    let n = v.len();
    if n > 0 && v[n - 1] == '\n' {
        let r = string_of(&v, 0, n - 1);
        r
    } else {
        let r = string_of(&v, 0, n);
        r
    }
}

/// What is left of `full` after as many characters as `typed` has.
pub fn rest_after(full: &str, typed: &str) -> (r: String)
    ensures
        r@ == untyped_suffix(full@, typed@),
{
    let v = chars_of(full);
    let skip = typed.unicode_len();
    if skip <= v.len() {
        string_of(&v, skip, v.len())
    } else {
        String::new()
    }
}

} // verus!
