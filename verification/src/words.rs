//! Lines, words and trimmed text.

use vstd::prelude::*;
use crate::text::{is_space, char_is_space, copy_range, extend_chars};

verus! {

/// The texts that a vector of character vectors holds.
pub open spec fn rows(v: Seq<Vec<char>>) -> Seq<Seq<char>> {
    Seq::new(v.len(), |i: int| v[i]@)
}

/// The texts that a vector of strings holds.
pub open spec fn texts(v: Seq<String>) -> Seq<Seq<char>> {
    Seq::new(v.len(), |i: int| v[i]@)
}

/// The text that an optional string holds.
pub open spec fn optional_text(text: Option<String>) -> Option<Seq<char>> {
    match text {
        Some(t) => Some(t@),
        None => None,
    }
}

/// What a result says whose two sides are texts.
pub open spec fn text_result_view(r: Result<String, String>) -> Result<Seq<char>, Seq<char>> {
    match r {
        Ok(text) => Ok(text@),
        Err(error) => Err(error@),
    }
}

/// The first position at or after `from` whose character meets `stop`, or
/// the length of `s` where there is none.
pub open spec fn scan_until(s: Seq<char>, from: int, stop: spec_fn(char) -> bool) -> int
    decreases s.len() - from,
{
    if from < 0 || from >= s.len() {
        s.len() as int
    } else if stop(s[from]) {
        from
    } else {
        scan_until(s, from + 1, stop)
    }
}

/// `scan_until` stops at the first character that meets `stop` and passes
/// over none that does.
pub proof fn lemma_scan_until(s: Seq<char>, from: int, stop: spec_fn(char) -> bool)
    requires
        0 <= from <= s.len(),
    ensures
        from <= scan_until(s, from, stop) <= s.len(),
        forall|k: int| from <= k < scan_until(s, from, stop) ==> !stop(#[trigger] s[k]),
        scan_until(s, from, stop) < s.len() ==> stop(s[scan_until(s, from, stop)]),
    decreases s.len() - from,
{
    if from < s.len() && !stop(s[from]) {
        lemma_scan_until(s, from + 1, stop);
    }
}

pub open spec fn is_newline(c: char) -> bool {
    c == '\n'
}

pub open spec fn is_not_space(c: char) -> bool {
    !is_space(c)
}

/// Where the line that starts at `from` ends: at the next line feed, or at
/// the end of the text.
pub open spec fn line_end(s: Seq<char>, from: int) -> int {
    scan_until(s, from, |c: char| is_newline(c))
}

/// Where the next word at or after `from` starts.
pub open spec fn word_start(s: Seq<char>, from: int) -> int {
    scan_until(s, from, |c: char| is_not_space(c))
}

/// Where the word that starts at `from` ends.
pub open spec fn word_end(s: Seq<char>, from: int) -> int {
    scan_until(s, from, |c: char| is_space(c))
}

/// A line without the carriage return that stood before its line feed.
pub open spec fn strip_cr(line: Seq<char>) -> Seq<char> {
    if line.len() > 0 && line.last() == '\r' {
        line.drop_last()
    } else {
        line
    }
}

/// The lines of `s` from position `from` on. A line ends at a line feed, or
/// at a carriage return directly followed by one; the ending is not part of
/// the line. The last line needs no ending, and an ending at the very end
/// opens no further line.
pub open spec fn lines_from(s: Seq<char>, from: int) -> Seq<Seq<char>>
    decreases s.len() - from,
    via lines_from_decreases
{
    if from < 0 || from >= s.len() {
        Seq::empty()
    } else {
        let end = line_end(s, from);
        if end < s.len() {
            seq![strip_cr(s.subrange(from, end))] + lines_from(s, end + 1)
        } else {
            seq![s.subrange(from, end)]
        }
    }
}

#[via_fn]
proof fn lines_from_decreases(s: Seq<char>, from: int) {
    if !(from < 0 || from >= s.len()) {
        lemma_scan_until(s, from, |c: char| is_newline(c));
    }
}

/// The lines of `s`.
pub open spec fn lines(s: Seq<char>) -> Seq<Seq<char>> {
    lines_from(s, 0)
}

/// The first word of `s`: its first run of characters that are not white
/// space. A text of white space alone has none.
pub open spec fn first_word(s: Seq<char>) -> Option<Seq<char>> {
    let start = word_start(s, 0);
    if start >= s.len() {
        None
    } else {
        Some(s.subrange(start, word_end(s, start)))
    }
}

/// `s` without the white space at its start.
pub open spec fn trim_start(s: Seq<char>) -> Seq<char> {
    s.skip(word_start(s, 0))
}

/// `s` without the white space at its end.
pub open spec fn trim_end(s: Seq<char>) -> Seq<char>
    decreases s.len(),
{
    if s.len() > 0 && is_space(s.last()) {
        trim_end(s.drop_last())
    } else {
        s
    }
}

/// `s` without the white space at its start and at its end.
pub open spec fn trim(s: Seq<char>) -> Seq<char> {
    trim_end(trim_start(s))
}

/// Whether `s` is white space throughout (the empty text is).
pub open spec fn is_blank(s: Seq<char>) -> bool {
    word_start(s, 0) >= s.len()
}

/// The parts, with `sep` between each two neighbours.
pub open spec fn join(parts: Seq<Seq<char>>, sep: Seq<char>) -> Seq<char>
    decreases parts.len(),
{
    if parts.len() == 0 {
        Seq::empty()
    } else if parts.len() == 1 {
        parts[0]
    } else {
        join(parts.drop_last(), sep) + sep + parts.last()
    }
}

pub fn find_line_end(s: &[char], from: usize) -> (r: usize)
    requires
        from <= s.len(),
    ensures
        r == line_end(s@, from as int),
        from <= r <= s.len(),
{
    let mut i: usize = from;
    while i < s.len() && s[i] != '\n'
        invariant
            from <= i <= s.len(),
            line_end(s@, from as int) == line_end(s@, i as int),
        decreases s.len() - i,
    {
        i += 1;
    }
    i
}

pub fn find_word_start(s: &[char], from: usize) -> (r: usize)
    requires
        from <= s.len(),
    ensures
        r == word_start(s@, from as int),
        from <= r <= s.len(),
{
    let mut i: usize = from;
    while i < s.len() && char_is_space(s[i])
        invariant
            from <= i <= s.len(),
            word_start(s@, from as int) == word_start(s@, i as int),
        decreases s.len() - i,
    {
        i += 1;
    }
    i
}

pub fn find_word_end(s: &[char], from: usize) -> (r: usize)
    requires
        from <= s.len(),
    ensures
        r == word_end(s@, from as int),
        from <= r <= s.len(),
{
    let mut i: usize = from;
    while i < s.len() && !char_is_space(s[i])
        invariant
            from <= i <= s.len(),
            word_end(s@, from as int) == word_end(s@, i as int),
        decreases s.len() - i,
    {
        i += 1;
    }
    i
}

/// The lines of `s`, each as a text of its own.
pub fn split_lines(s: &[char]) -> (r: Vec<Vec<char>>)
    ensures
        rows(r@) == lines(s@),
{
    let mut r: Vec<Vec<char>> = Vec::new();
    let mut from: usize = 0;
    while from < s.len()
        invariant
            from <= s.len(),
            lines(s@) == rows(r@) + lines_from(s@, from as int),
        decreases s.len() - from,
    {
        let end = find_line_end(s, from);
        let ghost before = rows(r@);
        if end < s.len() {
            let mut stop: usize = end;
            if stop > from && s[stop - 1] == '\r' {
                stop = stop - 1;
            }
            let line = copy_range(s, from, stop);
            assert(line@ == strip_cr(s@.subrange(from as int, end as int))) by {
                let full = s@.subrange(from as int, end as int);
                if full.len() > 0 && full.last() == '\r' {
                    assert(full.drop_last() == s@.subrange(from as int, end - 1));
                }
            }
            r.push(line);
            assert(rows(r@) == before + seq![line@]);
            from = end + 1;
        } else {
            let line = copy_range(s, from, end);
            r.push(line);
            assert(rows(r@) == before + seq![line@]);
            from = end;
        }
    }
    assert(lines_from(s@, from as int) == Seq::<Seq<char>>::empty());
    r
}

/// The first word of `s`.
pub fn first_word_of(s: &[char]) -> (r: Option<Vec<char>>)
    ensures
        match r {
            Some(w) => first_word(s@) == Some(w@),
            None => first_word(s@) is None,
        },
{
    let start = find_word_start(s, 0);
    if start >= s.len() {
        None
    } else {
        let end = find_word_end(s, start);
        Some(copy_range(s, start, end))
    }
}

/// Whether `s` is white space throughout.
pub fn is_blank_text(s: &[char]) -> (r: bool)
    ensures
        r == is_blank(s@),
{
    find_word_start(s, 0) >= s.len()
}

/// `s` without the white space at its start and at its end.
pub fn trim_text(s: &[char]) -> (r: Vec<char>)
    ensures
        r@ == trim(s@),
{
    let start = find_word_start(s, 0);
    let mut end: usize = s.len();
    assert(s@.subrange(start as int, end as int) == s@.skip(start as int));
    while end > start && char_is_space(s[end - 1])
        invariant
            start <= end <= s.len(),
            trim(s@) == trim_end(s@.subrange(start as int, end as int)),
        decreases end,
    {
        assert(s@.subrange(start as int, end as int).drop_last() == s@.subrange(
            start as int,
            end - 1,
        ));
        end = end - 1;
    }
    copy_range(s, start, end)
}

/// The parts, with `sep` between each two neighbours.
pub fn join_texts(parts: &Vec<Vec<char>>, sep: &[char]) -> (r: Vec<char>)
    ensures
        r@ == join(rows(parts@), sep@),
{
    let mut r: Vec<char> = Vec::new();
    let mut i: usize = 0;
    while i < parts.len()
        invariant
            i <= parts.len(),
            r@ == join(rows(parts@).take(i as int), sep@),
        decreases parts.len() - i,
    {
        let ghost done = rows(parts@).take(i as int);
        let ghost next = rows(parts@).take(i + 1);
        assert(next.drop_last() == done);
        assert(next.last() == parts@[i as int]@);
        if i > 0 {
            extend_chars(&mut r, sep);
        }
        extend_chars(&mut r, parts[i].as_slice());
        i += 1;
    }
    assert(rows(parts@).take(parts.len() as int) == rows(parts@));
    r
}

} // verus!
