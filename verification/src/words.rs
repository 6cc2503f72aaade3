//! Whitespace, line breaks and word boundaries in a sequence of characters.
//!
//! A word is a maximal run of characters that are not whitespace. A word
//! boundary is any place where whitespace and non-whitespace meet; the
//! boundaries the widget moves to are the word starts.

use vstd::prelude::*;

verus! {

/// The characters that Unicode classes as `White_Space`.
pub open spec fn is_whitespace(c: char) -> bool {
    let u: u32 = c as u32;
    ||| 0x0009 <= u <= 0x000D
    ||| u == 0x0020
    ||| u == 0x0085
    ||| u == 0x00A0
    ||| u == 0x1680
    ||| 0x2000 <= u <= 0x200A
    ||| u == 0x2028
    ||| u == 0x2029
    ||| u == 0x202F
    ||| u == 0x205F
    ||| u == 0x3000
}

/// The characters that end a line: line feed and carriage return.
pub open spec fn is_line_break(c: char) -> bool {
    c == '\n' || c == '\r'
}

/// No character of `text` ends a line.
pub open spec fn is_single_line(text: Seq<char>) -> bool {
    forall|i: int| 0 <= i < text.len() ==> !is_line_break(#[trigger] text[i])
}

/// A word starts at `p`: the character there is not whitespace, and it is
/// the first of the text or follows whitespace.
pub open spec fn is_word_start(text: Seq<char>, p: int) -> bool {
    &&& 0 <= p < text.len()
    &&& !is_whitespace(text[p])
    &&& (p == 0 || is_whitespace(text[p - 1]))
}

/// The last word start before `cursor`, or 0 where there is none.
pub open spec fn prev_word_start(text: Seq<char>, cursor: int) -> int
    decreases cursor,
{
    if cursor <= 0 {
        0
    } else if is_word_start(text, cursor - 1) {
        cursor - 1
    } else {
        prev_word_start(text, cursor - 1)
    }
}

/// The first word start after `cursor`, or the length of `text` where there
/// is none.
pub open spec fn next_word_start(text: Seq<char>, cursor: int) -> int
    decreases text.len() - cursor,
{
    if cursor >= text.len() {
        text.len() as int
    } else if is_word_start(text, cursor + 1) {
        cursor + 1
    } else {
        next_word_start(text, cursor + 1)
    }
}

/// `prev_word_start` is what its name says: it lies before the cursor, no
/// word starts between it and the cursor, and it is itself a word start
/// unless no word starts before the cursor at all, in which case it is 0.
pub proof fn lemma_prev_word_start(text: Seq<char>, cursor: int)
    ensures
        0 <= prev_word_start(text, cursor),
        cursor > 0 ==> prev_word_start(text, cursor) < cursor,
        cursor <= 0 ==> prev_word_start(text, cursor) == 0,
        forall|q: int|
            prev_word_start(text, cursor) < q < cursor ==> !#[trigger] is_word_start(text, q),
        is_word_start(text, prev_word_start(text, cursor)) || (prev_word_start(text, cursor) == 0
            && forall|q: int| q < cursor ==> !#[trigger] is_word_start(text, q)),
    decreases cursor,
{
    if cursor > 0 && !is_word_start(text, cursor - 1) {
        lemma_prev_word_start(text, cursor - 1);
    }
}

/// `next_word_start` is what its name says: it lies behind the cursor unless
/// the cursor is at or behind the end, no word starts between the cursor and
/// it, and it is itself a word start unless no word starts behind the cursor
/// at all, in which case it is the length of the text.
pub proof fn lemma_next_word_start(text: Seq<char>, cursor: int)
    ensures
        next_word_start(text, cursor) <= text.len(),
        cursor < text.len() ==> cursor < next_word_start(text, cursor),
        cursor >= text.len() ==> next_word_start(text, cursor) == text.len(),
        forall|q: int|
            cursor < q < next_word_start(text, cursor) ==> !#[trigger] is_word_start(text, q),
        is_word_start(text, next_word_start(text, cursor)) || (next_word_start(text, cursor)
            == text.len() && forall|q: int| cursor < q ==> !#[trigger] is_word_start(text, q)),
    decreases text.len() - cursor,
{
    if cursor < text.len() && !is_word_start(text, cursor + 1) {
        lemma_next_word_start(text, cursor + 1);
    }
}

/// Behind the end of the text nothing changes the last word start.
pub proof fn lemma_prev_word_start_past_end(text: Seq<char>, cursor: int)
    requires
        cursor >= text.len(),
    ensures
        prev_word_start(text, cursor) == prev_word_start(text, text.len() as int),
    decreases cursor,
{
    if cursor > text.len() {
        lemma_prev_word_start_past_end(text, cursor - 1);
    }
}

/// Tells whether `c` is whitespace.
pub fn char_is_whitespace(c: char) -> (b: bool)
    ensures
        b == is_whitespace(c),
{
    let u: u32 = c as u32;
    (0x0009 <= u && u <= 0x000D) || u == 0x0020 || u == 0x0085 || u == 0x00A0 || u == 0x1680 || (
    0x2000 <= u && u <= 0x200A) || u == 0x2028 || u == 0x2029 || u == 0x202F || u == 0x205F || u
        == 0x3000
}

/// Tells whether a word starts at `p`.
pub fn starts_word(text: &Vec<char>, p: usize) -> (b: bool)
    ensures
        b == is_word_start(text@, p as int),
{
    p < text.len() && !char_is_whitespace(text[p]) && (p == 0 || char_is_whitespace(text[p - 1]))
}

/// Finds the last word start before `cursor`, or 0.
pub fn word_start_before(text: &Vec<char>, cursor: usize) -> (p: usize)
    ensures
        p == prev_word_start(text@, cursor as int),
{
    let mut j: usize = if cursor <= text.len() {
        cursor
    } else {
        text.len()
    };
    proof {
        if cursor > text.len() {
            lemma_prev_word_start_past_end(text@, cursor as int);
        }
    }
    while j > 0
        invariant
            j <= text.len(),
            prev_word_start(text@, cursor as int) == prev_word_start(text@, j as int),
        decreases j,
    {
        j -= 1;
        if starts_word(text, j) {
            return j;
        }
    }
    0
}

/// Finds the first word start after `cursor`, or the length of the text.
pub fn word_start_after(text: &Vec<char>, cursor: usize) -> (p: usize)
    ensures
        p == next_word_start(text@, cursor as int),
{
    let len: usize = text.len();
    if cursor >= len {
        return len;
    }
    let mut j: usize = cursor;
    while j < len
        invariant
            j <= len,
            len == text.len(),
            next_word_start(text@, cursor as int) == next_word_start(text@, j as int),
        decreases len - j,
    {
        j += 1;
        if starts_word(text, j) {
            return j;
        }
    }
    len
}

} // verus!
