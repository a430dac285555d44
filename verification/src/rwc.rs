//! Counting the words and the characters of the lines of a text.
//!
//! Each line is counted without the white space at its start and at its
//! end. Its words are the pieces that single blanks cut it into, so that two
//! blanks in a row have an empty word between them and an empty line has
//! one empty word.

use vstd::prelude::*;

verus! {

/// Whether `c` is white space: a character with the Unicode property
/// `White_Space`.
pub open spec fn is_white(c: char) -> bool {
    let code = c as int;
    ||| 0x09 <= code <= 0x0d
    ||| code == 0x20
    ||| code == 0x85
    ||| code == 0xa0
    ||| code == 0x1680
    ||| 0x2000 <= code <= 0x200a
    ||| code == 0x2028
    ||| code == 0x2029
    ||| code == 0x202f
    ||| code == 0x205f
    ||| code == 0x3000
}

/// `text` without the white space at its start.
pub open spec fn trim_start(text: Seq<char>) -> Seq<char>
    decreases text.len(),
{
    if text.len() > 0 && is_white(text[0]) {
        trim_start(text.drop_first())
    } else {
        text
    }
}

/// `text` without the white space at its end.
pub open spec fn trim_end(text: Seq<char>) -> Seq<char>
    decreases text.len(),
{
    if text.len() > 0 && is_white(text.last()) {
        trim_end(text.drop_last())
    } else {
        text
    }
}

/// `text` without the white space at its start and at its end.
pub open spec fn trimmed(text: Seq<char>) -> Seq<char> {
    trim_end(trim_start(text))
}

/// The number of blanks (the character U+0020) in `text`.
pub open spec fn blanks(text: Seq<char>) -> nat
    decreases text.len(),
{
    if text.len() == 0 {
        0
    } else {
        blanks(text.drop_last()) + if text.last() == ' ' {
            1nat
        } else {
            0nat
        }
    }
}

/// The number of words of one line: one more than the blanks that are left
/// when the white space around the line is taken off.
pub open spec fn words_of(line: Seq<char>) -> nat {
    blanks(trimmed(line)) + 1
}

/// The number of characters of one line, without the white space around it.
pub open spec fn characters_of(line: Seq<char>) -> nat {
    trimmed(line).len()
}

/// The number of words of all of `lines`.
pub open spec fn total_words(lines: Seq<String>) -> nat
    decreases lines.len(),
{
    if lines.len() == 0 {
        0
    } else {
        total_words(lines.drop_last()) + words_of(lines.last()@)
    }
}

/// The number of characters of all of `lines`.
pub open spec fn total_characters(lines: Seq<String>) -> nat
    decreases lines.len(),
{
    if lines.len() == 0 {
        0
    } else {
        total_characters(lines.drop_last()) + characters_of(lines.last()@)
    }
}

proof fn lemma_total_words_grows(lines: Seq<String>, shorter: int)
    requires
        0 <= shorter <= lines.len(),
    ensures
        total_words(lines.take(shorter)) <= total_words(lines),
    decreases lines.len(),
{
    if shorter == lines.len() {
        assert(lines.take(shorter) =~= lines);
    } else {
        lemma_total_words_grows(lines.drop_last(), shorter);
        assert(lines.drop_last().take(shorter) =~= lines.take(shorter));
    }
}

proof fn lemma_total_characters_grows(lines: Seq<String>, shorter: int)
    requires
        0 <= shorter <= lines.len(),
    ensures
        total_characters(lines.take(shorter)) <= total_characters(lines),
    decreases lines.len(),
{
    if shorter == lines.len() {
        assert(lines.take(shorter) =~= lines);
    } else {
        lemma_total_characters_grows(lines.drop_last(), shorter);
        assert(lines.drop_last().take(shorter) =~= lines.take(shorter));
    }
}

/// Whether `c` is white space.
pub fn is_whitespace(c: char) -> (white: bool)
    ensures
        white == is_white(c),
{
    let code: u32 = c as u32;
    (0x09 <= code && code <= 0x0d) || code == 0x20 || code == 0x85 || code == 0xa0 || code
        == 0x1680 || (0x2000 <= code && code <= 0x200a) || code == 0x2028 || code == 0x2029
        || code == 0x202f || code == 0x205f || code == 0x3000
}

/// The characters of `line`.
fn characters(line: &str) -> (chars: Vec<char>)
    ensures
        chars@ == line@,
{
    broadcast use vstd::string::group_string_axioms;

    let mut chars: Vec<char> = Vec::new();
    for c in iter: line.chars()
        invariant
            iter.seq() == line@,
            chars@ == iter.seq().take(iter.index() as int),
    {
        chars.push(c);
        assert(chars@ =~= iter.seq().take(iter.index() + 1));
    }
    assert(line@.take(line@.len() as int) =~= line@);
    chars
}

/// Where the text of a line lies between the white space around it: the
/// characters from `start` up to `end` are the trimmed line.
fn trim_bounds(chars: &Vec<char>) -> (bounds: (usize, usize))
    ensures
        bounds.0 <= bounds.1 <= chars.len(),
        trimmed(chars@) == chars@.subrange(bounds.0 as int, bounds.1 as int),
{
    let mut start: usize = 0;
    assert(chars@.skip(0) =~= chars@);
    while start < chars.len() && is_whitespace(chars[start])
        invariant
            start <= chars.len(),
            trim_start(chars@) == trim_start(chars@.skip(start as int)),
        decreases chars.len() - start,
    {
        assert(chars@.skip(start as int).drop_first() =~= chars@.skip(start + 1));
        start += 1;
    }
    let ghost rest = chars@.skip(start as int);
    assert(trim_start(chars@) == rest);
    let mut end: usize = chars.len();
    assert(rest.take(end - start) =~= rest);
    while end > start && is_whitespace(chars[end - 1])
        invariant
            start <= end <= chars.len(),
            rest == chars@.skip(start as int),
            trim_end(rest) == trim_end(rest.take(end - start)),
        decreases end,
    {
        assert(rest.take(end - start).last() == chars@[end - 1]);
        assert(rest.take(end - start).drop_last() =~= rest.take(end - start - 1));
        end -= 1;
    }
    proof {
        let kept = rest.take(end - start);
        if end > start {
            assert(kept.last() == chars@[end - 1]);
        }
        assert(trim_end(kept) == kept);
        assert(kept =~= chars@.subrange(start as int, end as int));
    }
    (start, end)
}

/// The number of blanks among the characters from `start` up to `end`.
fn count_blanks(chars: &Vec<char>, start: usize, end: usize) -> (count: usize)
    requires
        start <= end <= chars.len(),
    ensures
        count == blanks(chars@.subrange(start as int, end as int)),
        count <= end - start,
{
    let mut count: usize = 0;
    let mut i: usize = start;
    assert(chars@.subrange(start as int, start as int) =~= Seq::<char>::empty());
    while i < end
        invariant
            start <= i <= end <= chars.len(),
            count == blanks(chars@.subrange(start as int, i as int)),
            count <= i - start,
        decreases end - i,
    {
        assert(chars@.subrange(start as int, i + 1).drop_last() =~= chars@.subrange(
            start as int,
            i as int,
        ));
        if chars[i] == ' ' {
            count += 1;
        }
        i += 1;
    }
    count
}

/// The number of words of `lines`, counted line by line; see [`words_of`].
/// The number must fit a `usize`.
pub fn num_of_words(lines: &Vec<String>) -> (count: usize)
    requires
        total_words(lines@) <= usize::MAX,
    ensures
        count == total_words(lines@),
{
    let mut count: usize = 0;
    let mut i: usize = 0;
    assert(lines@.take(0) =~= Seq::<String>::empty());
    while i < lines.len()
        invariant
            i <= lines.len(),
            count == total_words(lines@.take(i as int)),
            total_words(lines@) <= usize::MAX,
        decreases lines.len() - i,
    {
        let chars = characters(lines[i].as_str());
        let (start, end) = trim_bounds(&chars);
        let blank_count = count_blanks(&chars, start, end);
        proof {
            assert(lines@.take(i + 1).drop_last() =~= lines@.take(i as int));
            assert(lines@.take(i + 1).last() == lines@[i as int]);
            lemma_total_words_grows(lines@, i + 1);
        }
        count = count + blank_count + 1;
        i += 1;
    }
    assert(lines@.take(i as int) =~= lines@);
    count
}

/// The number of characters of `lines`, counted line by line without the
/// white space around each line; see [`characters_of`]. The number must fit
/// a `usize`.
pub fn num_of_characters(lines: &Vec<String>) -> (count: usize)
    requires
        total_characters(lines@) <= usize::MAX,
    ensures
        count == total_characters(lines@),
{
    let mut count: usize = 0;
    let mut i: usize = 0;
    assert(lines@.take(0) =~= Seq::<String>::empty());
    while i < lines.len()
        invariant
            i <= lines.len(),
            count == total_characters(lines@.take(i as int)),
            total_characters(lines@) <= usize::MAX,
        decreases lines.len() - i,
    {
        let chars = characters(lines[i].as_str());
        let (start, end) = trim_bounds(&chars);
        proof {
            assert(lines@.take(i + 1).drop_last() =~= lines@.take(i as int));
            assert(lines@.take(i + 1).last() == lines@[i as int]);
            lemma_total_characters_grows(lines@, i + 1);
        }
        count = count + (end - start);
        i += 1;
    }
    assert(lines@.take(i as int) =~= lines@);
    count
}

} // verus!
