//! Text handling shared by the tools: comparing names, splitting option
//! strings into words, and turning captured process output into text.

use vstd::prelude::*;
use vstd::string::*;
use vstd::utf8::{decode_utf8, valid_utf8};

verus! {

/// Whether `c` is a white-space character in the sense of
/// `char::is_whitespace`, that is, whether it carries the Unicode
/// `White_Space` property.
pub uninterp spec fn white_space(c: char) -> bool;

/// The text that `String::from_utf8_lossy` makes of `bytes`: their decoding
/// as UTF-8, with each ill-formed part replaced by U+FFFD.
pub uninterp spec fn lossy_text(bytes: Seq<u8>) -> Seq<char>;

/// Calls `char::is_whitespace`. Trusted: the answer is the `White_Space`
/// property of `c`, which this crate only names.
#[verifier::external_body]
fn is_whitespace(c: char) -> (b: bool)
    ensures
        b == white_space(c),
{
    c.is_whitespace()
}

/// Calls `String::from_utf8_lossy`. Trusted: the result depends on the bytes
/// alone, and bytes that already are well-formed UTF-8 come back as the text
/// they encode, unchanged.
#[verifier::external_body]
fn from_utf8_lossy(bytes: &Vec<u8>) -> (text: String)
    ensures
        text@ == lossy_text(bytes@),
        valid_utf8(bytes@) ==> text@ == decode_utf8(bytes@),
{
    String::from_utf8_lossy(bytes).into_owned()
}

/// The views of a vector of strings, in order.
pub open spec fn texts(v: Seq<String>) -> Seq<Seq<char>> {
    Seq::new(v.len(), |i: int| v[i]@)
}

/// Whether `part` occurs in `text` as one piece.
pub open spec fn contains_text(text: Seq<char>, part: Seq<char>) -> bool {
    exists|from: int, to: int|
        0 <= from <= to <= text.len() && #[trigger] text.subrange(from, to) == part
}

/// Whether position `at` separates words: whether `marks` holds `true`
/// there. A position that `marks` does not reach separates nothing.
pub open spec fn is_gap(marks: Seq<bool>, at: int) -> bool {
    0 <= at < marks.len() && marks[at]
}

/// The first gap at or after `from`, or `len` when there is none before it.
pub open spec fn word_end(len: int, marks: Seq<bool>, from: int) -> int
    decreases len - from,
{
    if from >= len || is_gap(marks, from) {
        from
    } else {
        word_end(len, marks, from + 1)
    }
}

/// The words of `s` that begin at or after `from`: the maximal runs of
/// characters between gaps, in order.
pub open spec fn words_from(s: Seq<char>, marks: Seq<bool>, from: int) -> Seq<Seq<char>>
    decreases s.len() - from,
    via words_from_decreases
{
    if from < 0 || from >= s.len() {
        Seq::empty()
    } else if is_gap(marks, from) {
        words_from(s, marks, from + 1)
    } else {
        seq![s.subrange(from, word_end(s.len() as int, marks, from))] + words_from(
            s,
            marks,
            word_end(s.len() as int, marks, from),
        )
    }
}

#[via_fn]
proof fn words_from_decreases(s: Seq<char>, marks: Seq<bool>, from: int) {
    if 0 <= from < s.len() && !is_gap(marks, from) {
        lemma_word_end_bounds(s.len() as int, marks, from);
    }
}

/// What is left of `s` once it is cut at the gaps that `marks` gives and
/// the empty pieces are thrown away.
pub open spec fn cut(s: Seq<char>, marks: Seq<bool>) -> Seq<Seq<char>> {
    words_from(s, marks, 0)
}

/// For each character of `s`, whether it is white space.
pub open spec fn white_space_marks(s: Seq<char>) -> Seq<bool> {
    Seq::new(s.len(), |i: int| white_space(s[i]))
}

/// The words of `s`: what is left of it once it is cut at white space and
/// the empty pieces are thrown away.
pub open spec fn words(s: Seq<char>) -> Seq<Seq<char>> {
    cut(s, white_space_marks(s))
}

/// Output captured from a process, as text: the bytes decoded as UTF-8
/// where they are well formed, and else with each ill-formed part replaced
/// by U+FFFD.
pub open spec fn captured_text(bytes: Seq<u8>) -> Seq<char> {
    if valid_utf8(bytes) {
        decode_utf8(bytes)
    } else {
        lossy_text(bytes)
    }
}

/// A word that starts at a position which is no gap ends after it, and no
/// later than the text does.
proof fn lemma_word_end_bounds(len: int, marks: Seq<bool>, from: int)
    requires
        0 <= from < len,
        !is_gap(marks, from),
    ensures
        from < word_end(len, marks, from) <= len,
    decreases len - from,
{
    if from + 1 < len && !is_gap(marks, from + 1) {
        lemma_word_end_bounds(len, marks, from + 1);
    } else {
        assert(word_end(len, marks, from + 1) == from + 1);
    }
}

/// A run without gaps that stops at a gap or at the end of the text is
/// where the word starting at `from` ends.
proof fn lemma_word_end_is(len: int, marks: Seq<bool>, from: int, end: int)
    requires
        0 <= from <= end <= len,
        forall|k: int| from <= k < end ==> !is_gap(marks, k),
        end == len || is_gap(marks, end),
    ensures
        word_end(len, marks, from) == end,
    decreases end - from,
{
    if from < end {
        lemma_word_end_is(len, marks, from + 1, end);
    }
}

/// Between a position and the end of the word that starts there lies no
/// gap.
proof fn lemma_word_holds_no_gap(len: int, marks: Seq<bool>, from: int)
    requires
        0 <= from,
    ensures
        forall|k: int| from <= k < word_end(len, marks, from) ==> !is_gap(marks, k),
    decreases len - from,
{
    if from < len && !is_gap(marks, from) {
        lemma_word_holds_no_gap(len, marks, from + 1);
    }
}

/// The characters of `s` at or after `from` that stand at no gap, in order.
pub open spec fn kept_from(s: Seq<char>, marks: Seq<bool>, from: int) -> Seq<char>
    decreases s.len() - from,
{
    if from < 0 || from >= s.len() {
        Seq::empty()
    } else if is_gap(marks, from) {
        kept_from(s, marks, from + 1)
    } else {
        seq![s[from]] + kept_from(s, marks, from + 1)
    }
}

/// The pieces of `parts` put together, in order.
pub open spec fn joined(parts: Seq<Seq<char>>) -> Seq<char>
    decreases parts.len(),
{
    if parts.len() == 0 {
        Seq::empty()
    } else {
        parts[0] + joined(parts.drop_first())
    }
}

/// Across a run without gaps, all characters are kept.
proof fn lemma_run_is_kept(s: Seq<char>, marks: Seq<bool>, from: int, end: int)
    requires
        0 <= from <= end <= s.len(),
        forall|k: int| from <= k < end ==> !is_gap(marks, k),
    ensures
        kept_from(s, marks, from) == s.subrange(from, end) + kept_from(s, marks, end),
    decreases end - from,
{
    if from < end {
        lemma_run_is_kept(s, marks, from + 1, end);
        assert(s.subrange(from, end) == seq![s[from]] + s.subrange(from + 1, end));
        assert(kept_from(s, marks, from) == seq![s[from]] + (s.subrange(from + 1, end)
            + kept_from(s, marks, end)));
    } else {
        assert(s.subrange(from, end) + kept_from(s, marks, end) == kept_from(s, marks, end));
    }
}

/// Cutting loses nothing but the gaps: the words, put together, are the
/// characters that stand at no gap, in their order.
pub proof fn lemma_words_keep_all_but_gaps(s: Seq<char>, marks: Seq<bool>, from: int)
    ensures
        joined(words_from(s, marks, from)) == kept_from(s, marks, from),
    decreases s.len() - from,
{
    if from < 0 || from >= s.len() {
    } else if is_gap(marks, from) {
        lemma_words_keep_all_but_gaps(s, marks, from + 1);
    } else {
        lemma_word_end_bounds(s.len() as int, marks, from);
        let end = word_end(s.len() as int, marks, from);
        let first = s.subrange(from, end);
        let rest = words_from(s, marks, end);
        lemma_word_holds_no_gap(s.len() as int, marks, from);
        lemma_run_is_kept(s, marks, from, end);
        lemma_words_keep_all_but_gaps(s, marks, end);
        assert(words_from(s, marks, from) == seq![first] + rest);
        assert((seq![first] + rest).drop_first() == rest);
        assert(joined(seq![first] + rest) == first + joined(rest));
    }
}

/// Whether nothing of `word` is white space.
pub open spec fn no_white_space(word: Seq<char>) -> bool {
    forall|j: int| 0 <= j < word.len() ==> !white_space(#[trigger] word[j])
}

/// No word is empty.
pub proof fn lemma_no_word_is_empty(s: Seq<char>, marks: Seq<bool>, from: int)
    ensures
        forall|k: int|
            0 <= k < words_from(s, marks, from).len() ==> (#[trigger] words_from(
                s,
                marks,
                from,
            )[k]).len() > 0,
    decreases s.len() - from,
{
    if from < 0 || from >= s.len() {
        assert(words_from(s, marks, from).len() == 0);
    } else if is_gap(marks, from) {
        lemma_no_word_is_empty(s, marks, from + 1);
        assert(words_from(s, marks, from) == words_from(s, marks, from + 1));
    } else {
        lemma_word_end_bounds(s.len() as int, marks, from);
        let end = word_end(s.len() as int, marks, from);
        let first = s.subrange(from, end);
        let rest = words_from(s, marks, end);
        lemma_no_word_is_empty(s, marks, end);
        assert(words_from(s, marks, from) == seq![first] + rest);
        assert forall|k: int| 0 <= k < words_from(s, marks, from).len() implies (
        #[trigger] words_from(s, marks, from)[k]).len() > 0 by {
            if k == 0 {
                assert(words_from(s, marks, from)[k] == first);
            } else {
                assert(words_from(s, marks, from)[k] == rest[k - 1]);
            }
        }
    }
}

/// No word of a text that is cut at white space holds white space.
pub proof fn lemma_words_hold_no_white_space(s: Seq<char>, from: int)
    ensures
        forall|k: int|
            0 <= k < words_from(s, white_space_marks(s), from).len() ==> no_white_space(
                #[trigger] words_from(s, white_space_marks(s), from)[k],
            ),
    decreases s.len() - from,
{
    let marks = white_space_marks(s);
    if from < 0 || from >= s.len() {
        assert(words_from(s, marks, from).len() == 0);
    } else if is_gap(marks, from) {
        lemma_words_hold_no_white_space(s, from + 1);
        assert(words_from(s, marks, from) == words_from(s, marks, from + 1));
    } else {
        lemma_word_end_bounds(s.len() as int, marks, from);
        let end = word_end(s.len() as int, marks, from);
        let first = s.subrange(from, end);
        let rest = words_from(s, marks, end);
        lemma_word_holds_no_gap(s.len() as int, marks, from);
        lemma_words_hold_no_white_space(s, end);
        assert(words_from(s, marks, from) == seq![first] + rest);
        assert forall|k: int| 0 <= k < words_from(s, marks, from).len() implies no_white_space(
            #[trigger] words_from(s, marks, from)[k],
        ) by {
            if k == 0 {
                assert(words_from(s, marks, from)[k] == first);
                assert forall|j: int| 0 <= j < first.len() implies !white_space(
                    #[trigger] first[j],
                ) by {
                    assert(first[j] == s[from + j]);
                    assert(!is_gap(marks, from + j));
                }
            } else {
                assert(words_from(s, marks, from)[k] == rest[k - 1]);
            }
        }
    }
}

/// Whether two pieces of text are the same, character for character.
pub fn same_text(a: &str, b: &str) -> (same: bool)
    ensures
        same == (a@ == b@),
{
    a.to_owned() == b.to_owned()
}

/// For each character of `text`, whether it is white space.
pub fn mark_white_space(text: &str) -> (marks: Vec<bool>)
    ensures
        marks@ == white_space_marks(text@),
{
    let mut marks: Vec<bool> = Vec::new();
    for c in it: text.chars()
        invariant
            it.seq() == text@,
            marks@ == white_space_marks(text@).take(it.index() as int),
    {
        marks.push(is_whitespace(c));
    }
    marks
}

/// Cuts `text` at the positions that `marks` holds `true` for and drops the
/// empty pieces. A position that `marks` does not reach cuts nothing.
///
/// The words come back in the order in which they stand in `text`. Each is
/// copied out by the positions of its characters, which takes a walk
/// through `text` from its start: the cost grows with the length of `text`
/// times the number of words.
pub fn cut_words(text: &str, marks: &Vec<bool>) -> (tokens: Vec<String>)
    ensures
        texts(tokens@) == cut(text@, marks@),
        forall|k: int| 0 <= k < tokens.len() ==> (#[trigger] tokens[k])@.len() > 0,
{
    let n = text.unicode_len();
    let mut tokens: Vec<String> = Vec::new();
    let mut i: usize = 0;
    while i < n
        invariant
            n == text@.len(),
            i <= n,
            cut(text@, marks@) == texts(tokens@) + words_from(text@, marks@, i as int),
        decreases n - i,
    {
        if i < marks.len() && marks[i] {
            i += 1;
        } else {
            let start = i;
            while i < n && !(i < marks.len() && marks[i])
                invariant
                    n == text@.len(),
                    start <= i <= n,
                    forall|k: int| start <= k < i ==> !is_gap(marks@, k),
                decreases n - i,
            {
                i += 1;
            }
            let word = text.substring_char(start, i).to_owned();
            proof {
                lemma_word_end_is(n as int, marks@, start as int, i as int);
                assert(texts(tokens@.push(word)) == texts(tokens@) + seq![word@]);
            }
            tokens.push(word);
        }
    }
    proof {
        lemma_no_word_is_empty(text@, marks@, 0);
        assert forall|k: int| 0 <= k < tokens.len() implies (#[trigger] tokens[k])@.len() > 0 by {
            assert(tokens[k]@ == texts(tokens@)[k]);
            assert(tokens[k]@ == words_from(text@, marks@, 0)[k]);
        }
    }
    tokens
}

/// Splits `text` at white space and drops the empty pieces.
pub fn split_whitespace(text: &str) -> (tokens: Vec<String>)
    ensures
        texts(tokens@) == words(text@),
        forall|k: int|
            0 <= k < tokens.len() ==> (#[trigger] tokens[k])@.len() > 0 && no_white_space(
                tokens[k]@,
            ),
{
    let marks = mark_white_space(text);
    let tokens = cut_words(text, &marks);
    proof {
        lemma_words_hold_no_white_space(text@, 0);
        assert forall|k: int| 0 <= k < tokens.len() implies no_white_space(
            (#[trigger] tokens[k])@,
        ) by {
            assert(tokens[k]@ == texts(tokens@)[k]);
            assert(tokens[k]@ == words_from(text@, white_space_marks(text@), 0)[k]);
        }
    }
    tokens
}

/// Decodes output captured from a process as text.
pub fn decode_lossy(bytes: &Vec<u8>) -> (text: String)
    ensures
        text@ == captured_text(bytes@),
{
    from_utf8_lossy(bytes)
}

} // verus!
