use vstd::prelude::*;
use vstd::string::*;

use crate::text::push_name;

verus! {

/// Whether a character is white space: the characters with the Unicode
/// property `White_Space`.
pub open spec fn is_space(c: char) -> bool {
    ('\u{9}' <= c <= '\u{d}') || c == ' ' || c == '\u{85}' || c == '\u{a0}' || c == '\u{1680}' || (
    '\u{2000}' <= c <= '\u{200a}') || c == '\u{2028}' || c == '\u{2029}' || c == '\u{202f}' || c
        == '\u{205f}' || c == '\u{3000}'
}

/// The pieces of a text between the occurrences of a separator. A text
/// without the separator is a single piece; a separator at either end leaves
/// an empty piece there.
pub open spec fn split_on(text: Seq<char>, separator: char) -> Seq<Seq<char>>
    decreases text.len(),
{
    if text.len() == 0 {
        seq![Seq::empty()]
    } else {
        let front = split_on(text.drop_last(), separator);
        if text.last() == separator {
            front.push(Seq::empty())
        } else {
            front.drop_last().push(front.last().push(text.last()))
        }
    }
}

/// The pieces put together again, with the separator between them.
pub open spec fn joined(pieces: Seq<Seq<char>>, separator: char) -> Seq<char>
    decreases pieces.len(),
{
    if pieces.len() == 0 {
        Seq::empty()
    } else if pieces.len() == 1 {
        pieces[0]
    } else {
        joined(pieces.drop_last(), separator).push(separator) + pieces.last()
    }
}

/// What `split_on` is: there is at least one piece, no piece holds the
/// separator, and the pieces joined by the separator are the text.
pub proof fn lemma_split_on(text: Seq<char>, separator: char)
    ensures
        split_on(text, separator).len() >= 1,
        forall|i: int|
            0 <= i < split_on(text, separator).len() ==> !(#[trigger] split_on(
                text,
                separator,
            )[i]).contains(separator),
        joined(split_on(text, separator), separator) == text,
    decreases text.len(),
{
    let pieces = split_on(text, separator);
    if text.len() == 0 {
        assert(joined(pieces, separator) =~= text);
    } else {
        let front = split_on(text.drop_last(), separator);
        lemma_split_on(text.drop_last(), separator);
        if text.last() == separator {
            assert(pieces.drop_last() =~= front);
            assert(joined(pieces, separator) =~= text);
        } else {
            let grown = front.last().push(text.last());
            assert forall|i: int| 0 <= i < pieces.len() implies !(#[trigger] pieces[i]).contains(
                separator,
            ) by {
                if i < pieces.len() - 1 {
                    assert(pieces[i] == front[i]);
                } else if grown.contains(separator) {
                    let k = grown.index_of(separator);
                    assert(front.last()[k] == separator);
                }
            }
            if front.len() == 1 {
                assert(joined(pieces, separator) =~= text);
            } else {
                assert(pieces.drop_last() =~= front.drop_last());
                assert(joined(pieces, separator) =~= joined(front, separator).push(text.last()));
                assert(joined(pieces, separator) =~= text);
            }
        }
    }
}

/// A text without the white space at its start.
pub open spec fn trimmed_start(text: Seq<char>) -> Seq<char>
    decreases text.len(),
{
    if text.len() > 0 && is_space(text.first()) {
        trimmed_start(text.drop_first())
    } else {
        text
    }
}

/// A text without the white space at its end.
pub open spec fn trimmed_end(text: Seq<char>) -> Seq<char>
    decreases text.len(),
{
    if text.len() > 0 && is_space(text.last()) {
        trimmed_end(text.drop_last())
    } else {
        text
    }
}

/// A text without the white space at its start and at its end.
pub open spec fn trimmed(text: Seq<char>) -> Seq<char> {
    trimmed_end(trimmed_start(text))
}

/// The test for every character but one.
pub open spec fn other_than(unwanted: char) -> spec_fn(char) -> bool {
    |c: char| c != unwanted
}

/// A text without any occurrence of a character.
pub open spec fn without(text: Seq<char>, unwanted: char) -> Seq<char> {
    text.filter(other_than(unwanted))
}

/// Whether a character is white space.
pub fn is_space_char(c: char) -> (space: bool)
    ensures
        space == is_space(c),
{
    ('\u{9}' <= c && c <= '\u{d}') || c == ' ' || c == '\u{85}' || c == '\u{a0}' || c == '\u{1680}'
        || ('\u{2000}' <= c && c <= '\u{200a}') || c == '\u{2028}' || c == '\u{2029}' || c
        == '\u{202f}' || c == '\u{205f}' || c == '\u{3000}'
}

/// The characters of a text.
pub fn chars_of(text: &str) -> (chars: Vec<char>)
    ensures
        chars@ == text@,
{
    let mut chars: Vec<char> = Vec::new();
    for c in it: text.chars()
        invariant
            chars@ == it.seq().take(it.index() as int),
            it.seq() == text@,
    {
        chars.push(c);
        assert(chars@ =~= it.seq().take(it.index() + 1));
    }
    assert(chars@ =~= text@);
    chars
}

/// Splits a text at every occurrence of a separator.
pub fn split(text: &str, separator: char) -> (pieces: Vec<String>)
    ensures
        pieces.deep_view() == split_on(text@, separator),
        pieces.len() >= 1,
        joined(pieces.deep_view(), separator) == text@,
{
    let chars = chars_of(text);
    let ghost all = text@;
    let mut pieces: Vec<String> = Vec::new();
    let mut start: usize = 0;
    let mut i: usize = 0;
    assert(all.subrange(0, 0) =~= Seq::<char>::empty());
    assert(pieces.deep_view().push(all.subrange(0, 0)) =~= split_on(all.subrange(0, 0), separator));
    while i < chars.len()
        invariant
            chars@ == all,
            all == text@,
            start <= i <= chars.len(),
            pieces.deep_view().push(all.subrange(start as int, i as int)) == split_on(
                all.subrange(0, i as int),
                separator,
            ),
        decreases chars.len() - i,
    {
        let ghost before = pieces.deep_view();
        let ghost piece = all.subrange(start as int, i as int);
        proof {
            assert(all.subrange(0, i + 1).drop_last() =~= all.subrange(0, i as int));
            assert(all.subrange(0, i + 1).last() == all[i as int]);
            assert(before.push(piece).drop_last() =~= before);
            assert(before.push(piece).last() == piece);
        }
        if chars[i] == separator {
            push_name(&mut pieces, String::from_str(text.substring_char(start, i)));
            start = i + 1;
            assert(all.subrange(start as int, i + 1) =~= Seq::<char>::empty());
        } else {
            assert(all.subrange(start as int, i + 1) =~= piece.push(all[i as int]));
        }
        i += 1;
    }
    assert(all.subrange(0, i as int) =~= all);
    push_name(&mut pieces, String::from_str(text.substring_char(start, i)));
    proof {
        lemma_split_on(all, separator);
    }
    pieces
}

/// Copies a text without the white space at its start and at its end.
pub fn trim(text: &str) -> (kept: String)
    ensures
        kept@ == trimmed(text@),
        kept@.len() > 0 ==> !is_space(kept@.first()) && !is_space(kept@.last()),
{
    let chars = chars_of(text);
    let ghost all = text@;
    let n = chars.len();
    let mut from: usize = 0;
    assert(all.subrange(0, n as int) =~= all);
    while from < n && is_space_char(chars[from])
        invariant
            chars@ == all,
            n == all.len(),
            from <= n,
            trimmed_start(all) == trimmed_start(all.subrange(from as int, n as int)),
        decreases n - from,
    {
        assert(all.subrange(from as int, n as int).drop_first() =~= all.subrange(
            from + 1,
            n as int,
        ));
        from += 1;
    }
    let ghost rest = all.subrange(from as int, n as int);
    assert(trimmed_start(all) == rest);
    let mut to: usize = n;
    while to > from && is_space_char(chars[to - 1])
        invariant
            chars@ == all,
            n == all.len(),
            from <= to <= n,
            trimmed_end(rest) == trimmed_end(all.subrange(from as int, to as int)),
        decreases to,
    {
        assert(all.subrange(from as int, to as int).drop_last() =~= all.subrange(
            from as int,
            to - 1,
        ));
        to -= 1;
    }
    String::from_str(text.substring_char(from, to))
}

/// Copies a text without any occurrence of a character.
pub fn remove_char(text: &str, unwanted: char) -> (kept: String)
    ensures
        kept@ == without(text@, unwanted),
{
    let chars = chars_of(text);
    let ghost all = text@;
    let ghost wanted = other_than(unwanted);
    let mut kept = String::from_str("");
    let mut i: usize = 0;
    proof {
        reveal_strlit("");
        assert(all.subrange(0, 0) =~= Seq::<char>::empty());
        assert(kept@ =~= all.subrange(0, 0).filter(wanted)) by {
            reveal(Seq::filter);
        }
    }
    while i < chars.len()
        invariant
            chars@ == all,
            all == text@,
            i <= chars.len(),
            wanted == other_than(unwanted),
            kept@ == all.subrange(0, i as int).filter(wanted),
        decreases chars.len() - i,
    {
        let ghost before = kept@;
        proof {
            assert(all.subrange(0, i + 1) =~= all.subrange(0, i as int).push(all[i as int]));
            all.subrange(0, i as int).lemma_filter_push(all[i as int], wanted);
        }
        if chars[i] != unwanted {
            kept.append(text.substring_char(i, i + 1));
            assert(kept@ =~= before.push(all[i as int]));
        }
        i += 1;
    }
    assert(all.subrange(0, i as int) =~= all);
    kept
}

} // verus!
