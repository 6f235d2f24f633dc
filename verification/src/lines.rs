//! Lines of a text, as a function of its characters.
//!
//! A text is a sequence of characters. A line feed ends a line, and the
//! position behind it starts the next one; the line feed belongs to the line
//! that it ends. So every line but the last ends with a line feed, and a text
//! with `n` line feeds has `n + 1` lines.

use vstd::prelude::*;

verus! {

/// The number of line feeds in `s`.
pub open spec fn newlines(s: Seq<char>) -> nat
    decreases s.len(),
{
    if s.len() == 0 {
        0
    } else {
        newlines(s.drop_last()) + if s.last() == '\n' { 1nat } else { 0nat }
    }
}

/// The number of lines of `s`: one more than its line feeds.
pub open spec fn line_count(s: Seq<char>) -> nat {
    newlines(s) + 1
}

/// The offset at which line `k` starts: the length of the shortest prefix
/// of `s` that holds `k` line feeds, and the length of `s` where there are
/// fewer.
pub open spec fn line_start(s: Seq<char>, k: nat) -> int
    decreases s.len(),
{
    if s.len() == 0 || k > newlines(s.drop_last()) {
        s.len() as int
    } else {
        line_start(s.drop_last(), k)
    }
}

/// The characters of line `k`, its line feed included.
pub open spec fn line_text(s: Seq<char>, k: nat) -> Seq<char> {
    s.subrange(line_start(s, k), line_start(s, k + 1))
}

/// The number of characters of line `k`, its line feed included.
pub open spec fn line_len(s: Seq<char>, k: nat) -> int {
    line_start(s, k + 1) - line_start(s, k)
}

/// The number of characters of line `k` without the line feed that ends it:
/// the greatest column a cursor can have on that line.
pub open spec fn line_end(s: Seq<char>, k: nat) -> int {
    let line = line_text(s, k);
    if line.len() > 0 && line.last() == '\n' {
        line.len() - 1
    } else {
        line.len() as int
    }
}

/// The line that offset `o` lies on: the number of line feeds before it.
pub open spec fn row_of(s: Seq<char>, o: int) -> nat {
    newlines(s.take(o))
}

/// The column of offset `o` on its line.
pub open spec fn col_of(s: Seq<char>, o: int) -> int {
    o - line_start(s, row_of(s, o))
}

/// `(row, col)` addresses a position of `s`: the line exists and the column
/// is not behind the line's end.
pub open spec fn is_position(s: Seq<char>, row: int, col: int) -> bool {
    &&& 0 <= row < line_count(s)
    &&& 0 <= col <= line_end(s, row as nat)
}

/// `s` with `t` put in at offset `o`.
pub open spec fn spliced(s: Seq<char>, o: int, t: Seq<char>) -> Seq<char> {
    s.subrange(0, o) + t + s.subrange(o, s.len() as int)
}

/// `s` without the characters at the offsets from `from` up to `to`, `to`
/// itself not included.
pub open spec fn cut(s: Seq<char>, from: int, to: int) -> Seq<char> {
    s.subrange(0, from) + s.subrange(to, s.len() as int)
}

/// Taking one more character counts it if it is a line feed.
pub proof fn lemma_newlines_take_next(s: Seq<char>, i: int)
    requires
        0 <= i < s.len(),
    ensures
        newlines(s.take(i + 1)) == newlines(s.take(i)) + if s[i] == '\n' { 1nat } else { 0nat },
{
    assert(s.take(i + 1).drop_last() =~= s.take(i));
    assert(s.take(i + 1).last() == s[i]);
}

/// A longer prefix holds at least as many line feeds, and at most one more
/// for each character more.
pub proof fn lemma_newlines_take_grows(s: Seq<char>, a: int, b: int)
    requires
        0 <= a <= b <= s.len(),
    ensures
        newlines(s.take(a)) <= newlines(s.take(b)) <= newlines(s.take(a)) + (b - a),
    decreases b - a,
{
    if a < b {
        lemma_newlines_take_grows(s, a, b - 1);
        lemma_newlines_take_next(s, b - 1);
    }
}

/// What `line_start` is for a line that exists: its offset lies in the text,
/// exactly `k` line feeds lie before it, a line feed stands right before it
/// unless it is the start of the text, and no shorter prefix holds `k` line
/// feeds. For an index behind the last line it is the length of the text.
pub proof fn lemma_line_start(s: Seq<char>, k: nat)
    ensures
        0 <= line_start(s, k) <= s.len(),
        k > newlines(s) ==> line_start(s, k) == s.len(),
        k <= newlines(s) ==> newlines(s.take(line_start(s, k))) == k,
        k == 0 ==> line_start(s, k) == 0,
        0 < k <= newlines(s) ==> line_start(s, k) > 0 && s[line_start(s, k) - 1] == '\n',
        forall|q: int| 0 <= q < line_start(s, k) ==> newlines(#[trigger] s.take(q)) < k,
    decreases s.len(),
{
    if s.len() == 0 {
        assert(s.take(0) =~= s);
    } else {
        let front = s.drop_last();
        assert(s.take(s.len() as int) =~= s);
        assert(s.take(s.len() - 1) =~= front);
        if k > newlines(front) {
            assert forall|q: int| 0 <= q < s.len() implies newlines(#[trigger] s.take(q)) < k by {
                lemma_newlines_take_grows(s, q, s.len() - 1);
            }
        } else {
            lemma_line_start(front, k);
            let p = line_start(front, k);
            assert(front.take(p) =~= s.take(p));
            assert forall|q: int| 0 <= q < p implies newlines(#[trigger] s.take(q)) < k by {
                assert(front.take(q) =~= s.take(q));
            }
        }
    }
}

/// An offset with `k` line feeds before it, which is the start of the text
/// or stands right behind a line feed, is the start of line `k`.
pub proof fn lemma_line_start_unique(s: Seq<char>, k: nat, p: int)
    requires
        0 <= p <= s.len(),
        newlines(s.take(p)) == k,
        p == 0 || s[p - 1] == '\n',
    ensures
        line_start(s, k) == p,
        k <= newlines(s),
{
    lemma_newlines_take_grows(s, p, s.len() as int);
    assert(s.take(s.len() as int) =~= s);
    lemma_line_start(s, k);
    let first = line_start(s, k);
    if first < p {
        lemma_newlines_take_next(s, p - 1);
        lemma_newlines_take_grows(s, first, p - 1);
    }
}

/// The lines follow one another: a line that exists ends where the next one
/// starts. Every line but the last ends with its line feed, which is its only
/// one; the last line holds none.
pub proof fn lemma_line_shape(s: Seq<char>, k: nat)
    requires
        k <= newlines(s),
    ensures
        0 <= line_start(s, k) <= line_start(s, k + 1) <= s.len(),
        line_len(s, k) == line_text(s, k).len(),
        k < newlines(s) ==> line_len(s, k) >= 1 && line_end(s, k) == line_len(s, k) - 1 && s[
            line_start(s, k + 1) - 1] == '\n',
        k == newlines(s) ==> line_end(s, k) == line_len(s, k) && line_start(s, k + 1) == s.len(),
        forall|i: int|
            line_start(s, k) <= i < line_start(s, k) + line_end(s, k) ==> #[trigger] s[i] != '\n',
{
    lemma_line_start(s, k);
    lemma_line_start(s, k + 1);
    let a = line_start(s, k);
    let b = line_start(s, k + 1);
    assert(s.take(s.len() as int) =~= s);
    if a > b {
        // b < a, so fewer than k line feeds lie before b
        assert(newlines(s.take(b)) < k);
    }
    if k < newlines(s) {
        if a == b {
            assert(false);
        }
        assert(line_text(s, k).last() == s[b - 1]);
        assert forall|i: int| a <= i < b - 1 implies #[trigger] s[i] != '\n' by {
            lemma_newlines_take_grows(s, a, i);
            lemma_newlines_take_next(s, i);
            lemma_newlines_take_grows(s, i + 1, b - 1);
            assert(newlines(s.take(b - 1)) < k + 1);
        }
    } else {
        assert forall|i: int| a <= i < b implies #[trigger] s[i] != '\n' by {
            lemma_newlines_take_grows(s, a, i);
            lemma_newlines_take_next(s, i);
            lemma_newlines_take_grows(s, i + 1, b);
        }
        if a < b {
            assert(line_text(s, k).last() == s[b - 1]);
        }
    }
}

/// Every offset of the text is a position: it lies on the line `row_of`
/// gives, at a column that is not behind that line's end.
pub proof fn lemma_offset_is_position(s: Seq<char>, o: int)
    requires
        0 <= o <= s.len(),
    ensures
        is_position(s, row_of(s, o) as int, col_of(s, o)),
        line_start(s, row_of(s, o)) + col_of(s, o) == o,
{
    let r = row_of(s, o);
    lemma_newlines_take_grows(s, o, s.len() as int);
    assert(s.take(s.len() as int) =~= s);
    lemma_line_start(s, r);
    lemma_line_shape(s, r);
    if r < newlines(s) {
        lemma_line_start(s, r + 1);
        let next = line_start(s, r + 1);
        if o >= next {
            lemma_newlines_take_grows(s, next, o);
        }
    }
}

/// A position's offset lies on the position's line: `row_of` and `col_of`
/// give the position back.
pub proof fn lemma_position_of_offset(s: Seq<char>, row: int, col: int)
    requires
        is_position(s, row, col),
    ensures
        0 <= line_start(s, row as nat) + col <= s.len(),
        row_of(s, line_start(s, row as nat) + col) == row,
        col_of(s, line_start(s, row as nat) + col) == col,
{
    let k = row as nat;
    let o = line_start(s, k) + col;
    lemma_line_start(s, k);
    lemma_line_shape(s, k);
    lemma_newlines_take_grows(s, line_start(s, k), o);
    if k < newlines(s) {
        lemma_line_start(s, k + 1);
    } else {
        lemma_newlines_take_grows(s, o, s.len() as int);
        assert(s.take(s.len() as int) =~= s);
    }
}

/// Where a line starts depends only on the text up to any offset that has
/// the line's start before or at it.
pub proof fn lemma_line_start_of_prefix(s: Seq<char>, t: Seq<char>, p: int, k: nat)
    requires
        0 <= p <= s.len(),
        p <= t.len(),
        s.take(p) == t.take(p),
        k <= newlines(s.take(p)),
    ensures
        line_start(t, k) == line_start(s, k),
        line_start(s, k) <= p,
{
    lemma_newlines_take_grows(s, p, s.len() as int);
    assert(s.take(s.len() as int) =~= s);
    lemma_line_start(s, k);
    let a = line_start(s, k);
    if a > p {
        assert(newlines(s.take(p)) < k);
    }
    assert(s.take(a) =~= s.take(p).take(a));
    assert(t.take(a) =~= t.take(p).take(a));
    if a > 0 {
        assert(s[a - 1] == s.take(p)[a - 1]);
        assert(t[a - 1] == t.take(p)[a - 1]);
    }
    lemma_line_start_unique(t, k, a);
}

} // verus!
