//! The rope that holds the buffer's text, and what is taken on trust about it.
//!
//! The text lives in a `ropey::Rope`. Verus does not see inside one, so the
//! characters a rope holds have a name here, `rope_chars`, and each call into
//! the rope goes through one function of this module whose contract is
//! believed, not proved. The rope is built with line feeds as its only line
//! breaks (the crate's other line breaks are switched off), so its lines are
//! those of `crate::lines`.

use vstd::prelude::*;
use crate::lines::{cut, line_count, line_start, line_text, spliced};

verus! {

/// `ropey::Rope`, the buffer's text. Nothing of its inside is known here.
#[verifier::external_type_specification]
#[verifier::external_body]
pub struct ExRope(ropey::Rope);

/// `ropey::RopeSlice`, a borrowed part of a rope: here always one line.
#[verifier::external_type_specification]
#[verifier::external_body]
pub struct ExRopeSlice<'a>(ropey::RopeSlice<'a>);

/// `ropey::Error`, which the rope's fallible edits return. It is only
/// told apart from success.
#[verifier::external_type_specification]
#[verifier::external_body]
pub struct ExRopeError(ropey::Error);

/// The characters that a rope holds, in order.
pub uninterp spec fn rope_chars(rope: ropey::Rope) -> Seq<char>;

/// The characters that a slice of a rope holds, in order.
pub uninterp spec fn slice_chars(slice: ropey::RopeSlice) -> Seq<char>;

/// `Rope::from_str`: the rope holds the characters of `text`. Their number
/// fits a `usize`, as the rope counts them in one.
#[verifier::external_body]
pub(crate) fn rope_from_str(text: &str) -> (rope: ropey::Rope)
    ensures
        rope_chars(rope) == text@,
        rope_chars(rope).len() <= usize::MAX,
{
    ropey::Rope::from_str(text)
}

/// `Rope::len_chars`: the number of characters held.
#[verifier::external_body]
pub(crate) fn rope_len_chars(rope: &ropey::Rope) -> (n: usize)
    ensures
        n == rope_chars(*rope).len(),
{
    rope.len_chars()
}

/// `Rope::len_lines`: one more than the number of line breaks, which in this
/// build are the line feeds.
#[verifier::external_body]
pub(crate) fn rope_len_lines(rope: &ropey::Rope) -> (n: usize)
    ensures
        n == line_count(rope_chars(*rope)),
{
    rope.len_lines()
}

/// `Rope::line_to_char`: the offset at which line `line_idx` starts, which
/// is the start of the text or the offset behind a line break; for the index
/// one past the last line, the length of the text. The call panics on a
/// greater index, which `requires` leaves out.
#[verifier::external_body]
pub(crate) fn rope_line_to_char(rope: &ropey::Rope, line_idx: usize) -> (offset: usize)
    requires
        line_idx <= line_count(rope_chars(*rope)),
    ensures
        offset == line_start(rope_chars(*rope), line_idx as nat),
{
    rope.line_to_char(line_idx)
}

/// `Rope::line`: the slice that holds line `line_idx`, from its start up to
/// the start of the next line, so with its line break. The call panics on an
/// index that is no line's, which `requires` leaves out.
#[verifier::external_body]
pub(crate) fn rope_line<'a>(rope: &'a ropey::Rope, line_idx: usize) -> (line: ropey::RopeSlice<'a>)
    requires
        line_idx < line_count(rope_chars(*rope)),
    ensures
        slice_chars(line) == line_text(rope_chars(*rope), line_idx as nat),
{
    rope.line(line_idx)
}

/// `RopeSlice::len_chars`: the number of characters in the slice.
#[verifier::external_body]
pub(crate) fn slice_len_chars(slice: &ropey::RopeSlice) -> (n: usize)
    ensures
        n == slice_chars(*slice).len(),
{
    slice.len_chars()
}

/// `RopeSlice::char`: the character at `char_idx`. The call panics on an
/// index past the last character, which `requires` leaves out.
#[verifier::external_body]
pub(crate) fn slice_char(slice: &ropey::RopeSlice, char_idx: usize) -> (c: char)
    requires
        char_idx < slice_chars(*slice).len(),
    ensures
        c == slice_chars(*slice)[char_idx as int],
{
    slice.char(char_idx)
}

/// `Rope::try_insert`: with `char_idx` within the text or at its end, `text`
/// is put in at that offset, and the new number of characters fits a `usize`;
/// with a greater index the call fails and leaves the rope as it was.
#[verifier::external_body]
pub(crate) fn rope_try_insert(rope: &mut ropey::Rope, char_idx: usize, text: &str) -> (r: Result<
    (),
    ropey::Error,
>)
    ensures
        r is Ok <==> char_idx <= rope_chars(*old(rope)).len(),
        r is Ok ==> rope_chars(*final(rope)) == spliced(
            rope_chars(*old(rope)),
            char_idx as int,
            text@,
        ) && rope_chars(*final(rope)).len() <= usize::MAX,
        r is Err ==> rope_chars(*final(rope)) == rope_chars(*old(rope)),
{
    rope.try_insert(char_idx, text)
}

/// `Rope::try_insert_char`: as `Rope::try_insert`, for the one character
/// `ch`.
#[verifier::external_body]
pub(crate) fn rope_try_insert_char(rope: &mut ropey::Rope, char_idx: usize, ch: char) -> (r: Result<
    (),
    ropey::Error,
>)
    ensures
        r is Ok <==> char_idx <= rope_chars(*old(rope)).len(),
        r is Ok ==> rope_chars(*final(rope)) == spliced(
            rope_chars(*old(rope)),
            char_idx as int,
            seq![ch],
        ) && rope_chars(*final(rope)).len() <= usize::MAX,
        r is Err ==> rope_chars(*final(rope)) == rope_chars(*old(rope)),
{
    rope.try_insert_char(char_idx, ch)
}

/// `Rope::try_remove` on the inclusive range from `first` to `last`: where
/// the range lies in the text (it may be empty, with `first` one behind
/// `last`), its characters leave the rope; else the call fails and leaves the
/// rope as it was. The crate adds one to `last`, which `requires` keeps from
/// overflowing.
#[verifier::external_body]
pub(crate) fn rope_try_remove(rope: &mut ropey::Rope, first: usize, last: usize) -> (r: Result<
    (),
    ropey::Error,
>)
    requires
        last < usize::MAX,
    ensures
        r is Ok <==> first <= last + 1 <= rope_chars(*old(rope)).len(),
        r is Ok ==> rope_chars(*final(rope)) == cut(
            rope_chars(*old(rope)),
            first as int,
            last + 1,
        ),
        r is Err ==> rope_chars(*final(rope)) == rope_chars(*old(rope)),
{
    rope.try_remove(first..=last)
}

} // verus!
