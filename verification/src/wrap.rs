//! The body of a session as it shows in a viewport: wrapped to the width of
//! the viewport, cut down to the last lines that fit its height, and with the
//! cursor placed behind the last character.

use vstd::prelude::*;
use crate::text::{
    chars_of, extend_chars, is_whitespace, lemma_lines_keep_tokens, lemma_tokens_concat,
    lemma_tokens_ignore_trailing_whitespace, lemma_trim_end, lemma_trim_end_keeps_tokens,
    line_tokens, lines, lines_view, push_range, split_lines, tokens, trailing_whitespace,
    trim_end, trimmed_len,
};

verus! {

/// What `textwrap::fill` returns for `text` and a line width of `width`
/// columns, with the options that a plain width stands for: the wrapped text.
pub uninterp spec fn filled(text: Seq<char>, width: nat) -> Seq<char>;

/// Calls `textwrap::fill` with a plain width, that is with the options that
/// `textwrap` was built with. The result depends on the two arguments alone,
/// and the call returns for every text and every width. Nothing more is
/// claimed of the result than that it is the text named `filled`.
#[verifier::external_body]
fn fill(text: &str, width: usize) -> (wrapped: String)
    ensures
        wrapped@ == filled(text@, width as nat),
{
    textwrap::fill(text, width)
}

/// How many of `total` wrapped lines stand above a viewport of `rows` rows.
/// The viewport keeps its last row free for the line that is being written,
/// so a text of `rows` lines or more loses all but its last `rows - 1`.
pub open spec fn lines_skipped(total: nat, rows: nat) -> nat {
    let limit = if rows > 1 { rows - 1 } else { 0 };
    if total > limit {
        (total - rows + 1) as nat
    } else {
        0
    }
}

/// The wrapped lines that a viewport of `rows` rows shows: the last ones.
pub open spec fn visible_lines(wrapped: Seq<char>, rows: nat) -> Seq<Seq<char>> {
    let all = lines(wrapped);
    let skipped = lines_skipped(all.len(), rows);
    if skipped >= all.len() {
        Seq::empty()
    } else {
        all.skip(skipped as int)
    }
}

/// The lines of `ls`, each followed by a line feed.
pub open spec fn join_lines(ls: Seq<Seq<char>>) -> Seq<char>
    decreases ls.len(),
{
    if ls.len() == 0 {
        Seq::empty()
    } else {
        join_lines(ls.drop_last()) + ls.last().push('\n')
    }
}

/// The text that a viewport of `rows` rows shows of `body`, where `wrapped`
/// is `body` after wrapping: the visible lines joined by line feeds, without
/// whitespace at the end, and then the whitespace that `body` itself ends in.
pub open spec fn visible_text(wrapped: Seq<char>, body: Seq<char>, rows: nat) -> Seq<char> {
    trim_end(join_lines(visible_lines(wrapped, rows))) + trailing_whitespace(body)
}

/// Cuts the wrapped text down to what a viewport of `rows` rows shows, and
/// puts back the whitespace at the end of `body`, which wrapping drops.
pub fn visible_window(wrapped: &str, body: &str, rows: usize) -> (shown: String)
    ensures
        shown@ == visible_text(wrapped@, body@, rows as nat),
{
    let w = chars_of(wrapped);
    let all = split_lines(&w);
    let total = all.len();
    let limit: usize = if rows > 1 { rows - 1 } else { 0 };
    let first: usize = if total > limit {
        if rows == 0 { total } else { total - rows + 1 }
    } else {
        0
    };
    let ghost shown_lines = visible_lines(wrapped@, rows as nat);
    proof {
        assert(lines_view(all@).len() == total);
        if first >= total {
            assert(shown_lines == Seq::<Seq<char>>::empty());
        } else {
            assert(shown_lines == lines(wrapped@).skip(first as int));
        }
    }
    let mut joined: Vec<char> = Vec::new();
    let mut i: usize = first;
    while i < total
        invariant
            first <= i <= total,
            total == all.len(),
            first < total ==> shown_lines == lines_view(all@).skip(first as int),
            first >= total ==> shown_lines.len() == 0,
            joined@ == join_lines(shown_lines.take(i - first)),
        decreases total - i,
    {
        proof {
            let upto = shown_lines.take(i - first + 1);
            assert(upto.drop_last() == shown_lines.take(i - first));
            assert(upto.last() == all@[i as int]@);
        }
        extend_chars(&mut joined, &all[i]);
        joined.push('\n');
        i = i + 1;
    }
    proof {
        if first < total {
            assert(shown_lines.take(total - first) == shown_lines);
        } else {
            assert(shown_lines.take(0) == shown_lines);
        }
    }
    let kept = trimmed_len(&joined);
    let b = chars_of(body);
    let body_kept = trimmed_len(&b);
    let mut shown = String::new();
    push_range(&mut shown, &joined, 0, kept);
    push_range(&mut shown, &b, body_kept, b.len());
    proof {
        assert(joined@.subrange(0, kept as int) == joined@.take(kept as int));
        assert(b@.subrange(body_kept as int, b.len() as int) == b@.skip(body_kept as int));
    }
    shown
}

/// The text that a viewport of `paragraph_rows` rows and `paragraph_cols`
/// columns shows of `body`.
pub fn get_paragraph_text(body: &str, paragraph_rows: usize, paragraph_cols: usize) -> (shown:
    String)
    ensures
        shown@ == visible_text(
            filled(body@, paragraph_cols as nat),
            body@,
            paragraph_rows as nat,
        ),
{
    let wrapped = fill(body, paragraph_cols);
    visible_window(wrapped.as_str(), body, paragraph_rows)
}

/// A viewport that has a free row left beyond the wrapped text shows all of
/// it: no line is skipped.
pub proof fn lemma_short_text_is_shown_whole(wrapped: Seq<char>, body: Seq<char>, rows: nat)
    requires
        lines(wrapped).len() <= (if rows > 1 { rows } else { 1 }) - 1,
    ensures
        lines_skipped(lines(wrapped).len(), rows) == 0,
        visible_lines(wrapped, rows) == lines(wrapped),
        visible_text(wrapped, body, rows) == trim_end(join_lines(lines(wrapped)))
            + trailing_whitespace(body),
{
    let all = lines(wrapped);
    if all.len() > 0 {
        assert(all.skip(0) == all);
    }
}

/// The viewport shows the end of the wrapped text: the lines above it and the
/// lines in it make up the wrapped text, and the lines in it leave the last
/// row of the viewport free.
pub proof fn lemma_window_is_tail(wrapped: Seq<char>, rows: nat)
    ensures
        visible_lines(wrapped, rows).len() <= lines(wrapped).len(),
        lines(wrapped) == lines(wrapped).take(
            lines(wrapped).len() - visible_lines(wrapped, rows).len(),
        ) + visible_lines(wrapped, rows),
        rows >= 1 ==> visible_lines(wrapped, rows).len() < rows,
        rows == 0 ==> visible_lines(wrapped, rows).len() == 0,
{
    let all = lines(wrapped);
    let shown = visible_lines(wrapped, rows);
    let skipped = lines_skipped(all.len(), rows);
    if skipped >= all.len() {
        assert(all.take(all.len() as int) == all);
        assert(all + shown == all);
    } else {
        assert(all.take(skipped as int) + all.skip(skipped as int) == all);
    }
}

/// Whether `text` ends in a line feed.
pub open spec fn ends_with_newline(text: Seq<char>) -> bool {
    text.len() > 0 && text.last() == '\n'
}

/// The column of the cursor behind `text`, counted in characters from 0: the
/// length of the last line, or 0 where the text is empty or ends in a line
/// feed.
pub open spec fn cursor_column(text: Seq<char>) -> nat {
    if ends_with_newline(text) || lines(text).len() == 0 {
        0
    } else {
        lines(text).last().len()
    }
}

/// The row of the cursor behind `text`, counted from 1: the row of the last
/// line, or the row below it where the text ends in a line feed.
pub open spec fn cursor_row(text: Seq<char>) -> nat {
    let below: nat = if ends_with_newline(text) { 1 } else { 0 };
    if lines(text).len() + below >= 1 {
        lines(text).len() + below
    } else {
        1
    }
}

/// Where the cursor stands behind `text`: column and row, each reduced to 16
/// bits.
pub fn get_text_position(text: &str) -> (position: (u16, u16))
    ensures
        position.0 == cursor_column(text@) % 0x1_0000,
        position.1 == cursor_row(text@) % 0x1_0000,
{
    let v = chars_of(text);
    let all = split_lines(&v);
    let count = all.len();
    proof {
        assert(lines_view(all@).len() == count);
    }
    let at_line_start = v.len() > 0 && v[v.len() - 1] == '\n';
    let column: usize = if at_line_start || count == 0 {
        0
    } else {
        proof {
            assert(lines_view(all@).last() == all@[count - 1]@);
        }
        all[count - 1].len()
    };
    let row: u128 = if at_line_start {
        count as u128 + 1
    } else if count == 0 {
        1
    } else {
        count as u128
    };
    ((column % 0x1_0000) as u16, (row % 0x1_0000) as u16)
}

proof fn lemma_join_lines_tokens(ls: Seq<Seq<char>>)
    ensures
        tokens(join_lines(ls)) == line_tokens(ls),
        join_lines(ls).len() == 0 || is_whitespace(join_lines(ls).last()),
    decreases ls.len(),
{
    if ls.len() > 0 {
        let before = join_lines(ls.drop_last());
        let line = ls.last().push('\n');
        lemma_join_lines_tokens(ls.drop_last());
        lemma_tokens_concat(before, line);
        assert(line.drop_last() == ls.last());
        assert(tokens(line) == tokens(ls.last()));
        assert((before + line).last() == '\n');
    }
}

/// What is shown has the tokens of the lines that are shown, and no others:
/// cutting the text to the viewport and mending its end changes whitespace
/// only. Where no line is skipped, these are the tokens of the whole wrapped
/// text.
pub proof fn lemma_window_keeps_tokens(wrapped: Seq<char>, body: Seq<char>, rows: nat)
    ensures
        tokens(visible_text(wrapped, body, rows)) == line_tokens(visible_lines(wrapped, rows)),
        lines_skipped(lines(wrapped).len(), rows) == 0 ==> tokens(
            visible_text(wrapped, body, rows),
        ) == tokens(wrapped),
{
    let joined = join_lines(visible_lines(wrapped, rows));
    lemma_join_lines_tokens(visible_lines(wrapped, rows));
    lemma_trim_end_keeps_tokens(joined);
    lemma_trim_end(body);
    lemma_tokens_ignore_trailing_whitespace(trim_end(joined), trailing_whitespace(body));
    if lines_skipped(lines(wrapped).len(), rows) == 0 {
        let all = lines(wrapped);
        if all.len() > 0 {
            assert(all.skip(0) == all);
        }
        lemma_lines_keep_tokens(wrapped);
    }
}

} // verus!
