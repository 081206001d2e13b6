//! Text: joining, splitting and trimming.

use vstd::prelude::*;
use vstd::string::{StrSliceExecFns, StringExecFns};

verus! {

/// The text that an optional string holds.
pub open spec fn text_of(string: Option<String>) -> Option<Seq<char>> {
    match string {
        Some(held) => Some(held@),
        None => None,
    }
}

/// Whether a character has the Unicode property `White_Space`.
pub open spec fn white_space(c: char) -> bool {
    ||| '\u{9}' <= c <= '\u{d}'
    ||| c == ' '
    ||| c == '\u{85}'
    ||| c == '\u{a0}'
    ||| c == '\u{1680}'
    ||| '\u{2000}' <= c <= '\u{200a}'
    ||| c == '\u{2028}'
    ||| c == '\u{2029}'
    ||| c == '\u{202f}'
    ||| c == '\u{205f}'
    ||| c == '\u{3000}'
}

/// The index of the first `wanted` in `text`, or the length of `text` where it
/// has none.
pub open spec fn position(text: Seq<char>, wanted: char) -> int
    decreases text.len(),
{
    if text.len() == 0 || text[0] == wanted {
        0
    } else {
        1 + position(text.skip(1), wanted)
    }
}

/// The pieces of `text` between the separators. There is always one more piece
/// than there are separators.
pub open spec fn split(text: Seq<char>, separator: char) -> Seq<Seq<char>>
    decreases text.len(),
{
    let end = position(text, separator);
    if 0 <= end < text.len() {
        seq![text.take(end)] + split(text.skip(end + 1), separator)
    } else {
        seq![text]
    }
}

/// The pieces with a separator between each two.
pub open spec fn join_pieces(pieces: Seq<Seq<char>>, separator: char) -> Seq<char>
    decreases pieces.len(),
{
    if pieces.len() == 0 {
        Seq::empty()
    } else if pieces.len() == 1 {
        pieces[0]
    } else {
        pieces[0].push(separator) + join_pieces(pieces.skip(1), separator)
    }
}

/// The text without the white space that it starts with.
pub open spec fn trim_start(text: Seq<char>) -> Seq<char>
    decreases text.len(),
{
    if text.len() > 0 && white_space(text[0]) {
        trim_start(text.skip(1))
    } else {
        text
    }
}

/// The text without the white space that it ends in.
pub open spec fn trim_end(text: Seq<char>) -> Seq<char>
    decreases text.len(),
{
    if text.len() > 0 && white_space(text.last()) {
        trim_end(text.drop_last())
    } else {
        text
    }
}

/// The text without the white space around it.
pub open spec fn trim(text: Seq<char>) -> Seq<char> {
    trim_end(trim_start(text))
}

/// Two pieces of text, one behind the other.
pub fn join(first: &str, second: &str) -> (joined: String)
    ensures
        joined@ == first@ + second@,
{
    let mut joined = first.to_owned();
    joined.append(second);
    joined
}

/// Whether a character has the Unicode property `White_Space`.
pub fn is_white_space(c: char) -> (yes: bool)
    ensures
        yes == white_space(c),
{
    ('\u{9}' <= c && c <= '\u{d}') || c == ' ' || c == '\u{85}' || c == '\u{a0}' || c == '\u{1680}'
        || ('\u{2000}' <= c && c <= '\u{200a}') || c == '\u{2028}' || c == '\u{2029}' || c
        == '\u{202f}' || c == '\u{205f}' || c == '\u{3000}'
}

/// The characters of a text.
pub fn characters(text: &str) -> (chars: Vec<char>)
    ensures
        chars@ == text@,
{
    let mut chars: Vec<char> = Vec::new();
    for c in it: text.chars()
        invariant
            it.seq() == text@,
            chars@ == text@.take(it.index() as int),
    {
        chars.push(c);
        assert(text@.take(it.index() + 1) == text@.take(it.index() as int).push(c));
    }
    assert(text@.take(text@.len() as int) == text@);
    chars
}

/// The index of the first `wanted` in `chars` from `from` on and before `to`, or
/// `to` where there is none.
pub fn find(chars: &Vec<char>, from: usize, to: usize, wanted: char) -> (found: usize)
    requires
        from <= to <= chars@.len(),
    ensures
        found == from + position(chars@.subrange(from as int, to as int), wanted),
        from <= found <= to,
{
    let ghost window = chars@.subrange(from as int, to as int);
    let mut i: usize = from;
    while i < to && chars[i] != wanted
        invariant
            from <= i <= to <= chars@.len(),
            window == chars@.subrange(from as int, to as int),
            forall|j: int| from <= j < i ==> #[trigger] chars@[j] != wanted,
        decreases to - i,
    {
        i = i + 1;
    }
    proof {
        assert forall|j: int| 0 <= j < i - from implies #[trigger] window[j] != wanted by {
            assert(window[j] == chars@[from + j]);
        }
        lemma_position_is(window, wanted, i - from);
    }
    i
}

/// The bounds of the text that is left of `chars`, from `from` on and before
/// `to`, when the white space around it is taken off.
pub fn trim_bounds(chars: &Vec<char>, from: usize, to: usize) -> (bounds: (usize, usize))
    requires
        from <= to <= chars@.len(),
    ensures
        from <= bounds.0 <= bounds.1 <= to,
        chars@.subrange(bounds.0 as int, bounds.1 as int) == trim(
            chars@.subrange(from as int, to as int),
        ),
{
    let mut start: usize = from;
    while start < to && is_white_space(chars[start])
        invariant
            from <= start <= to <= chars@.len(),
            trim_start(chars@.subrange(from as int, to as int)) == trim_start(
                chars@.subrange(start as int, to as int),
            ),
        decreases to - start,
    {
        assert(chars@.subrange(start as int, to as int).skip(1) == chars@.subrange(
            start + 1,
            to as int,
        ));
        start = start + 1;
    }
    let mut end: usize = to;
    while end > start && is_white_space(chars[end - 1])
        invariant
            start <= end <= to <= chars@.len(),
            trim_end(chars@.subrange(start as int, to as int)) == trim_end(
                chars@.subrange(start as int, end as int),
            ),
        decreases end - start,
    {
        assert(chars@.subrange(start as int, end as int).drop_last() == chars@.subrange(
            start as int,
            end - 1,
        ));
        end = end - 1;
    }
    (start, end)
}

/// The part of a text from the character with the index `from` on and before that
/// with the index `to`.
pub fn part(text: &str, from: usize, to: usize) -> (piece: String)
    requires
        from <= to <= text@.len(),
    ensures
        piece@ == text@.subrange(from as int, to as int),
{
    text.substring_char(from, to).to_owned()
}

/// What `position` is, without recursion: nothing before it is wanted, and it
/// is wanted or the end.
pub proof fn position_is_first(text: Seq<char>, wanted: char)
    ensures
        0 <= position(text, wanted) <= text.len(),
        forall|i: int| 0 <= i < position(text, wanted) ==> #[trigger] text[i] != wanted,
        position(text, wanted) < text.len() ==> text[position(text, wanted)] == wanted,
    decreases text.len(),
{
    if text.len() > 0 && text[0] != wanted {
        position_is_first(text.skip(1), wanted);
        assert forall|i: int| 0 <= i < position(text, wanted) implies #[trigger] text[i]
            != wanted by {
            if i > 0 {
                assert(text.skip(1)[i - 1] == text[i]);
            }
        }
    }
}

/// The index before which nothing is wanted, and which is wanted or the end, is
/// the position.
pub(crate) proof fn lemma_position_is(text: Seq<char>, wanted: char, index: int)
    requires
        0 <= index <= text.len(),
        forall|i: int| 0 <= i < index ==> #[trigger] text[i] != wanted,
        index < text.len() ==> text[index] == wanted,
    ensures
        position(text, wanted) == index,
{
    position_is_first(text, wanted);
    if position(text, wanted) < index {
        assert(text[position(text, wanted)] != wanted);
    } else if index < position(text, wanted) {
        assert(text[index] != wanted);
    }
}

/// Splitting loses nothing: the pieces, joined again, are the text.
pub proof fn split_then_join(text: Seq<char>, separator: char)
    ensures
        split(text, separator).len() > 0,
        join_pieces(split(text, separator), separator) == text,
    decreases text.len(),
{
    position_is_first(text, separator);
    let end = position(text, separator);
    let pieces = split(text, separator);
    if end < text.len() {
        let rest = text.skip(end + 1);
        split_then_join(rest, separator);
        assert(pieces.skip(1) == split(rest, separator));
        assert(text.take(end).push(separator) + rest == text);
    }
}

/// No piece holds a separator.
pub proof fn pieces_hold_no_separator(text: Seq<char>, separator: char)
    ensures
        forall|i: int|
            0 <= i < split(text, separator).len() ==> !(#[trigger] split(
                text,
                separator,
            )[i]).contains(separator),
    decreases text.len(),
{
    position_is_first(text, separator);
    let end = position(text, separator);
    let pieces = split(text, separator);
    if end < text.len() {
        let rest = text.skip(end + 1);
        pieces_hold_no_separator(rest, separator);
        assert forall|i: int| 0 <= i < pieces.len() implies !(#[trigger] pieces[i]).contains(
            separator,
        ) by {
            if i == 0 {
                assert(pieces[0] == text.take(end));
            } else {
                assert(pieces[i] == split(rest, separator)[i - 1]);
            }
        }
    } else {
        assert forall|i: int| 0 <= i < pieces.len() implies !(#[trigger] pieces[i]).contains(
            separator,
        ) by {
            assert(pieces[i] == text);
        }
    }
}

/// Splitting two texts with a separator between them gives the pieces of the
/// first, and then those of the second.
pub proof fn split_distributes(first: Seq<char>, second: Seq<char>, separator: char)
    ensures
        split(first.push(separator) + second, separator) == split(first, separator) + split(
            second,
            separator,
        ),
    decreases first.len(),
{
    let whole = first.push(separator) + second;
    position_is_first(first, separator);
    let end = position(first, separator);
    assert forall|i: int| 0 <= i < end implies #[trigger] whole[i] != separator by {
        assert(whole[i] == first[i]);
    }
    lemma_position_is(whole, separator, end);
    assert(whole.take(end) == first.take(end));
    if end < first.len() {
        let rest = first.skip(end + 1);
        split_distributes(rest, second, separator);
        assert(whole.skip(end + 1) == rest.push(separator) + second);
        assert(split(whole, separator) == seq![first.take(end)] + (split(rest, separator) + split(
            second,
            separator,
        )));
        assert(split(first, separator) == seq![first.take(end)] + split(rest, separator));
    } else {
        assert(first.take(end) == first);
        assert(whole.skip(end + 1) == second);
    }
}

/// Joining loses nothing either: pieces that hold no separator, joined and split
/// again, are the pieces.
pub proof fn join_then_split(pieces: Seq<Seq<char>>, separator: char)
    requires
        pieces.len() > 0,
        forall|i: int| 0 <= i < pieces.len() ==> !(#[trigger] pieces[i]).contains(separator),
    ensures
        split(join_pieces(pieces, separator), separator) == pieces,
    decreases pieces.len(),
{
    let first = pieces[0];
    assert forall|i: int| 0 <= i < first.len() implies #[trigger] first[i] != separator by {
        assert(!pieces[0].contains(first[i]) || first[i] != separator);
    }
    lemma_position_is(first, separator, first.len() as int);
    assert(split(first, separator) == seq![first]);
    if pieces.len() == 1 {
        assert(pieces == seq![first]);
    } else {
        let rest = pieces.skip(1);
        assert forall|i: int| 0 <= i < rest.len() implies !(#[trigger] rest[i]).contains(
            separator,
        ) by {
            assert(rest[i] == pieces[i + 1]);
        }
        join_then_split(rest, separator);
        split_distributes(first, join_pieces(rest, separator), separator);
        assert(seq![first] + rest == pieces);
    }
}

/// A trimmed text neither starts nor ends in white space, and trimming it again
/// changes nothing.
pub proof fn trimmed_has_no_white_space_around(text: Seq<char>)
    ensures
        trim(text).len() > 0 ==> !white_space(trim(text).first()) && !white_space(
            trim(text).last(),
        ),
        trim(trim(text)) == trim(text),
{
    lemma_trim_start(text);
    let rest = trim_start(text);
    lemma_trim_end(rest);
    if trim(text).len() > 0 {
        assert(trim(text).first() == rest.first());
    }
}

/// Trimming takes off white space and nothing else.
pub proof fn trim_takes_off_white_space_only(text: Seq<char>)
    ensures
        exists|from: int, to: int|
            #![trigger text.subrange(from, to)]
            0 <= from <= to <= text.len() && trim(text) == text.subrange(from, to) && (forall|
                i: int,
            |
                0 <= i < text.len() && !(from <= i < to) ==> white_space(#[trigger] text[i])),
{
    lemma_trim_start(text);
    let rest = trim_start(text);
    lemma_trim_end(rest);
    let from = text.len() - rest.len();
    let to = from + trim(text).len();
    assert(trim(text) == text.subrange(from, to));
    assert forall|i: int| 0 <= i < text.len() && !(from <= i < to) implies white_space(
        #[trigger] text[i],
    ) by {
        if i >= to {
            assert(rest[i - from] == text[i]);
        }
    }
}

proof fn lemma_trim_start(text: Seq<char>)
    ensures
        trim_start(text).len() <= text.len(),
        trim_start(text) == text.skip(text.len() - trim_start(text).len()),
        trim_start(text).len() > 0 ==> !white_space(trim_start(text).first()),
        forall|i: int|
            0 <= i < text.len() - trim_start(text).len() ==> white_space(#[trigger] text[i]),
    decreases text.len(),
{
    if text.len() > 0 && white_space(text[0]) {
        let rest = text.skip(1);
        lemma_trim_start(rest);
        let left = trim_start(text);
        assert(rest.skip(rest.len() - left.len()) == text.skip(text.len() - left.len()));
        assert forall|i: int| 0 <= i < text.len() - left.len() implies white_space(
            #[trigger] text[i],
        ) by {
            if i > 0 {
                assert(rest[i - 1] == text[i]);
            }
        }
    } else {
        assert(text.skip(0) == text);
    }
}

proof fn lemma_trim_end(text: Seq<char>)
    ensures
        trim_end(text).len() <= text.len(),
        trim_end(text) == text.take(trim_end(text).len() as int),
        trim_end(text).len() > 0 ==> !white_space(trim_end(text).last()),
        forall|i: int| trim_end(text).len() <= i < text.len() ==> white_space(#[trigger] text[i]),
    decreases text.len(),
{
    if text.len() > 0 && white_space(text.last()) {
        let rest = text.drop_last();
        lemma_trim_end(rest);
        let left = trim_end(text);
        assert(rest.take(left.len() as int) == text.take(left.len() as int));
        assert forall|i: int| left.len() <= i < text.len() implies white_space(
            #[trigger] text[i],
        ) by {
            if i < text.len() - 1 {
                assert(rest[i] == text[i]);
            }
        }
    } else {
        assert(text.take(text.len() as int) == text);
    }
}

/// A text without a separator is one piece, all of it. With `split_distributes`, this
/// says what the pieces of any text are.
pub proof fn a_text_without_separator_is_one_piece(text: Seq<char>, separator: char)
    requires
        !text.contains(separator),
    ensures
        split(text, separator) == seq![text],
{
    position_is_first(text, separator);
}

/// White space around a text does not matter to what is left of it, and a text without
/// any around it is left as it is.
pub proof fn only_white_space_around_is_trimmed(before: Seq<char>, text: Seq<char>, behind: Seq<char>)
    requires
        forall|i: int| 0 <= i < before.len() ==> white_space(#[trigger] before[i]),
        forall|i: int| 0 <= i < behind.len() ==> white_space(#[trigger] behind[i]),
        text.len() > 0 ==> !white_space(text.first()) && !white_space(text.last()),
    ensures
        trim(before + text + behind) == text,
{
    let whole = before + text + behind;
    trim_takes_off_white_space_only(whole);
    trimmed_has_no_white_space_around(whole);
    let (from, to) = choose|from: int, to: int|
        #![trigger whole.subrange(from, to)]
        0 <= from <= to <= whole.len() && trim(whole) == whole.subrange(from, to) && (forall|
            i: int,
        |
            0 <= i < whole.len() && !(from <= i < to) ==> white_space(#[trigger] whole[i]));
    let (low, high) = (before.len() as int, (before.len() + text.len()) as int);
    assert(whole.subrange(low, high) == text);
    assert forall|i: int| 0 <= i < whole.len() && !(low <= i < high) implies white_space(
        #[trigger] whole[i],
    ) by {
        if i < low {
            assert(whole[i] == before[i]);
        } else {
            assert(whole[i] == behind[i - high]);
        }
    }
    if text.len() > 0 {
        assert(whole[low] == text.first() && whole[high - 1] == text.last());
        assert(whole[from] == trim(whole).first() && whole[to - 1] == trim(whole).last());
    } else if from < to {
        assert(whole[from] == trim(whole).first());
    }
    if text.len() == 0 {
        assert(trim(whole) == text);
    }
}

} // verus!
