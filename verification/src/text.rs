//! Characters, whitespace-delimited tokens, trailing whitespace and lines.
//!
//! Everything here is stated over `Seq<char>`, the view of `str` and `String`.

use vstd::prelude::*;

verus! {

/// `String::push` appends one character.
pub assume_specification[ String::push ](s: &mut String, c: char)
    ensures
        final(s)@ == old(s)@.push(c),
;

/// `String::pop` removes the last character and returns it, or returns `None`
/// and leaves an empty string empty.
pub assume_specification[ String::pop ](s: &mut String) -> (r: Option<char>)
    ensures
        old(s)@.len() == 0 ==> r is None && final(s)@ == old(s)@,
        old(s)@.len() > 0 ==> r == Some(old(s)@.last()) && final(s)@ == old(s)@.drop_last(),
;

/// `String::clear` removes every character.
pub assume_specification[ String::clear ](s: &mut String)
    ensures
        final(s)@ == Seq::<char>::empty(),
;

/// The characters with the Unicode property `White_Space`.
pub open spec fn is_whitespace(c: char) -> bool {
    let u = c as u32;
    ||| 0x09 <= u <= 0x0D
    ||| u == 0x20
    ||| u == 0x85
    ||| u == 0xA0
    ||| u == 0x1680
    ||| 0x2000 <= u <= 0x200A
    ||| u == 0x2028
    ||| u == 0x2029
    ||| u == 0x202F
    ||| u == 0x205F
    ||| u == 0x3000
}

/// Whether `c` is a whitespace character.
pub fn char_is_whitespace(c: char) -> (r: bool)
    ensures
        r == is_whitespace(c),
{
    let u: u32 = c as u32;
    (0x09 <= u && u <= 0x0D) || u == 0x20 || u == 0x85 || u == 0xA0 || u == 0x1680 || (0x2000 <= u
        && u <= 0x200A) || u == 0x2028 || u == 0x2029 || u == 0x202F || u == 0x205F || u == 0x3000
}

/// The characters of `s`, in order.
pub fn chars_of(s: &str) -> (v: Vec<char>)
    ensures
        v@ == s@,
{
    let mut v: Vec<char> = Vec::new();
    for c in it: s.chars()
        invariant
            v@ == it.seq().take(it.index() as int),
            it.seq() == s@,
    {
        v.push(c);
    }
    v
}

/// Appends the characters of `v` from index `from` up to `to` to `out`.
pub(crate) fn push_range(out: &mut String, v: &Vec<char>, from: usize, to: usize)
    requires
        from <= to <= v.len(),
    ensures
        final(out)@ == old(out)@ + v@.subrange(from as int, to as int),
{
    let mut i: usize = from;
    while i < to
        invariant
            from <= i <= to <= v.len(),
            out@ == old(out)@ + v@.subrange(from as int, i as int),
        decreases to - i,
    {
        out.push(v[i]);
        i = i + 1;
    }
}

/// Appends the characters of `v` to `out`.
pub(crate) fn extend_chars(out: &mut Vec<char>, v: &Vec<char>)
    ensures
        final(out)@ == old(out)@ + v@,
{
    let mut i: usize = 0;
    while i < v.len()
        invariant
            i <= v.len(),
            out@ == old(out)@ + v@.take(i as int),
        decreases v.len() - i,
    {
        out.push(v[i]);
        i = i + 1;
    }
}

/// The whitespace-delimited tokens of `s`: its maximal runs of characters
/// that are not whitespace, in order. Stated as a fold over the characters: a
/// whitespace character adds nothing, a character that follows one of a token
/// extends that token, and any other character opens a new token.
pub open spec fn tokens(s: Seq<char>) -> Seq<Seq<char>>
    decreases s.len(),
{
    if s.len() == 0 {
        Seq::empty()
    } else {
        let before = tokens(s.drop_last());
        let c = s.last();
        if is_whitespace(c) {
            before
        } else if s.len() >= 2 && !is_whitespace(s[s.len() - 2]) {
            before.drop_last().push(before.last().push(c))
        } else {
            before.push(seq![c])
        }
    }
}

/// The number of whitespace-delimited tokens of `s`.
pub open spec fn word_count(s: Seq<char>) -> nat {
    tokens(s).len()
}

/// A text that ends inside a token has at least one token, and the last token
/// is not empty.
pub proof fn lemma_open_token(s: Seq<char>)
    requires
        s.len() > 0,
        !is_whitespace(s.last()),
    ensures
        tokens(s).len() > 0,
        tokens(s).last().len() > 0,
    decreases s.len(),
{
    if s.len() >= 2 && !is_whitespace(s[s.len() - 2]) {
        lemma_open_token(s.drop_last());
    }
}

/// Counts the whitespace-delimited tokens of `s`.
pub fn count_words(s: &str) -> (n: usize)
    ensures
        n == word_count(s@),
{
    let len = s.unicode_len();
    let mut n: usize = 0;
    let mut in_token = false;
    for c in it: s.chars()
        invariant
            it.seq() == s@,
            len == s@.len(),
            n == word_count(s@.take(it.index() as int)),
            n <= it.index(),
            in_token == (it.index() > 0 && !is_whitespace(s@[it.index() - 1])),
    {
        let ghost i = it.index() as int;
        proof {
            let cur = s@.take(i + 1);
            assert(cur.drop_last() == s@.take(i));
            assert(cur.last() == c);
            if in_token {
                assert(cur[cur.len() - 2] == s@[i - 1]);
                lemma_open_token(s@.take(i));
            }
        }
        let space = char_is_whitespace(c);
        if !space && !in_token {
            n = n + 1;
        }
        in_token = !space;
    }
    proof {
        assert(s@.take(s@.len() as int) == s@);
    }
    n
}

/// `s` without the whitespace at its end.
pub open spec fn trim_end(s: Seq<char>) -> Seq<char>
    decreases s.len(),
{
    if s.len() > 0 && is_whitespace(s.last()) {
        trim_end(s.drop_last())
    } else {
        s
    }
}

/// The run of whitespace at the end of `s`: what `trim_end` removes.
pub open spec fn trailing_whitespace(s: Seq<char>) -> Seq<char> {
    s.skip(trim_end(s).len() as int)
}

/// `trim_end` keeps a prefix, and what it keeps does not end in whitespace.
pub proof fn lemma_trim_end(s: Seq<char>)
    ensures
        trim_end(s).len() <= s.len(),
        trim_end(s) == s.take(trim_end(s).len() as int),
        trim_end(s).len() > 0 ==> !is_whitespace(trim_end(s).last()),
        trim_end(s) + trailing_whitespace(s) == s,
        forall|i: int| trim_end(s).len() <= i < s.len() ==> is_whitespace(s[i]),
    decreases s.len(),
{
    if s.len() > 0 && is_whitespace(s.last()) {
        let t = s.drop_last();
        lemma_trim_end(t);
        assert(t.take(trim_end(t).len() as int) == s.take(trim_end(t).len() as int));
        assert forall|i: int| trim_end(s).len() <= i < s.len() implies is_whitespace(s[i]) by {
            if i < t.len() {
                assert(s[i] == t[i]);
            }
        }
    } else {
        assert(s.take(s.len() as int) == s);
    }
}

/// The length of `v` without the whitespace at its end.
pub fn trimmed_len(v: &Vec<char>) -> (n: usize)
    ensures
        n == trim_end(v@).len(),
        n <= v.len(),
        trim_end(v@) == v@.take(n as int),
{
    let mut n: usize = v.len();
    proof {
        assert(v@.take(n as int) == v@);
    }
    while n > 0 && char_is_whitespace(v[n - 1])
        invariant
            n <= v.len(),
            trim_end(v@) == trim_end(v@.take(n as int)),
        decreases n,
    {
        proof {
            assert(v@.take(n as int).drop_last() == v@.take(n - 1));
        }
        n = n - 1;
    }
    proof {
        lemma_trim_end(v@);
    }
    n
}

/// A line without the carriage return that stood before its line feed.
pub open spec fn strip_cr(line: Seq<char>) -> Seq<char> {
    if line.len() > 0 && line.last() == '\r' {
        line.drop_last()
    } else {
        line
    }
}

/// The lines of `rest`, where `open` holds the characters of the line that
/// was begun before `rest`.
pub open spec fn lines_from(open: Seq<char>, rest: Seq<char>) -> Seq<Seq<char>>
    decreases rest.len(),
{
    if rest.len() == 0 {
        if open.len() == 0 {
            Seq::empty()
        } else {
            seq![open]
        }
    } else if rest[0] == '\n' {
        seq![strip_cr(open)] + lines_from(Seq::empty(), rest.drop_first())
    } else {
        lines_from(open.push(rest[0]), rest.drop_first())
    }
}

/// The lines of `s`. A line ends at a line feed, or at a carriage return
/// directly followed by one; neither belongs to the line. The last line needs
/// no line ending, and an empty text has no line.
pub open spec fn lines(s: Seq<char>) -> Seq<Seq<char>> {
    lines_from(Seq::empty(), s)
}

/// The view of a vector of lines.
pub open spec fn lines_view(v: Seq<Vec<char>>) -> Seq<Seq<char>> {
    Seq::new(v.len(), |i: int| v[i]@)
}

/// Splits `v` into its lines.
pub fn split_lines(v: &Vec<char>) -> (out: Vec<Vec<char>>)
    ensures
        lines_view(out@) == lines(v@),
{
    let mut out: Vec<Vec<char>> = Vec::new();
    let mut open: Vec<char> = Vec::new();
    let mut i: usize = 0;
    proof {
        assert(v@.skip(0) == v@);
        assert(lines_view(out@) + lines(v@) == lines(v@));
    }
    while i < v.len()
        invariant
            i <= v.len(),
            lines(v@) == lines_view(out@) + lines_from(open@, v@.skip(i as int)),
        decreases v.len() - i,
    {
        let c = v[i];
        proof {
            assert(v@.skip(i as int)[0] == c);
            assert(v@.skip(i as int).drop_first() == v@.skip(i + 1));
        }
        if c == '\n' {
            let n = open.len();
            if n > 0 && open[n - 1] == '\r' {
                open.pop();
            }
            let ghost before = lines_view(out@);
            let ghost line = open@;
            out.push(open);
            open = Vec::new();
            proof {
                assert(lines_view(out@) == before + seq![line]);
            }
        } else {
            open.push(c);
        }
        i = i + 1;
    }
    if open.len() > 0 {
        let ghost before = lines_view(out@);
        let ghost line = open@;
        out.push(open);
        proof {
            assert(lines_view(out@) == before + seq![line]);
        }
    }
    out
}

/// The character that writes the digit `d`.
pub open spec fn digit_char(d: nat) -> char {
    if d == 0 {
        '0'
    } else if d == 1 {
        '1'
    } else if d == 2 {
        '2'
    } else if d == 3 {
        '3'
    } else if d == 4 {
        '4'
    } else if d == 5 {
        '5'
    } else if d == 6 {
        '6'
    } else if d == 7 {
        '7'
    } else if d == 8 {
        '8'
    } else {
        '9'
    }
}

/// `n` written in base ten, without leading zeros.
pub open spec fn decimal(n: nat) -> Seq<char>
    decreases n,
{
    if n < 10 {
        seq![digit_char(n)]
    } else {
        decimal(n / 10).push(digit_char(n % 10))
    }
}

fn digit(d: u64) -> (c: char)
    requires
        d < 10,
    ensures
        c == digit_char(d as nat),
{
    if d == 0 {
        '0'
    } else if d == 1 {
        '1'
    } else if d == 2 {
        '2'
    } else if d == 3 {
        '3'
    } else if d == 4 {
        '4'
    } else if d == 5 {
        '5'
    } else if d == 6 {
        '6'
    } else if d == 7 {
        '7'
    } else if d == 8 {
        '8'
    } else {
        '9'
    }
}

/// Appends `n`, written in base ten, to `out`.
pub(crate) fn push_decimal(out: &mut String, n: u64)
    ensures
        final(out)@ == old(out)@ + decimal(n as nat),
    decreases n,
{
    if n >= 10 {
        push_decimal(out, n / 10);
    }
    out.push(digit(n % 10));
}

/// The tokens of `a` followed by `b` are those of `a` and then those of `b`,
/// where `a` is empty or ends in whitespace.
pub proof fn lemma_tokens_concat(a: Seq<char>, b: Seq<char>)
    requires
        a.len() == 0 || is_whitespace(a.last()),
    ensures
        tokens(a + b) == tokens(a) + tokens(b),
    decreases b.len(),
{
    if b.len() == 0 {
        assert(a + b == a);
        assert(tokens(a) + tokens(b) == tokens(a));
    } else {
        let s = a + b;
        let c = b.last();
        assert(s.drop_last() == a + b.drop_last());
        assert(s.last() == c);
        lemma_tokens_concat(a, b.drop_last());
        if is_whitespace(c) {
        } else if b.len() >= 2 {
            assert(s[s.len() - 2] == b[b.len() - 2]);
            if !is_whitespace(b[b.len() - 2]) {
                lemma_open_token(b.drop_last());
                let ta = tokens(a);
                let tb = tokens(b.drop_last());
                assert((ta + tb).drop_last() == ta + tb.drop_last());
                assert((ta + tb.drop_last()).push(tb.last().push(c)) == ta + tb.drop_last().push(
                    tb.last().push(c),
                ));
            } else {
                assert(tokens(a + b.drop_last()).push(seq![c]) == tokens(a) + tokens(
                    b.drop_last(),
                ).push(seq![c]));
            }
        } else {
            assert(b.drop_last() == Seq::<char>::empty());
            if a.len() > 0 {
                assert(s[s.len() - 2] == a.last());
            }
            assert(tokens(a + b.drop_last()).push(seq![c]) == tokens(a) + tokens(
                b.drop_last(),
            ).push(seq![c]));
        }
    }
}

/// The tokens of each line of `ls`, in order.
pub open spec fn line_tokens(ls: Seq<Seq<char>>) -> Seq<Seq<char>>
    decreases ls.len(),
{
    if ls.len() == 0 {
        Seq::empty()
    } else {
        line_tokens(ls.drop_last()) + tokens(ls.last())
    }
}

proof fn lemma_line_tokens_front(first: Seq<char>, ls: Seq<Seq<char>>)
    ensures
        line_tokens(seq![first] + ls) == tokens(first) + line_tokens(ls),
    decreases ls.len(),
{
    let all = seq![first] + ls;
    if ls.len() == 0 {
        assert(all.drop_last() == Seq::<Seq<char>>::empty());
        assert(all.last() == first);
        assert(line_tokens(all) == line_tokens(all.drop_last()) + tokens(first));
        assert(line_tokens(all.drop_last()) + tokens(first) == tokens(first));
        assert(tokens(first) + line_tokens(ls) == tokens(first));
    } else {
        assert(all.drop_last() == seq![first] + ls.drop_last());
        assert(all.last() == ls.last());
        lemma_line_tokens_front(first, ls.drop_last());
        assert((tokens(first) + line_tokens(ls.drop_last())) + tokens(ls.last()) == tokens(first)
            + (line_tokens(ls.drop_last()) + tokens(ls.last())));
    }
}

proof fn lemma_lines_from_keep_tokens(open: Seq<char>, rest: Seq<char>)
    ensures
        line_tokens(lines_from(open, rest)) == tokens(open + rest),
    decreases rest.len(),
{
    if rest.len() == 0 {
        assert(open + rest == open);
        if open.len() > 0 {
            let one = seq![open];
            assert(one.drop_last() == Seq::<Seq<char>>::empty());
            assert(one.last() == open);
            assert(line_tokens(one) == line_tokens(one.drop_last()) + tokens(open));
            assert(line_tokens(one.drop_last()) + tokens(open) == tokens(open));
        }
    } else if rest[0] == '\n' {
        let tail = rest.drop_first();
        let head = open.push('\n');
        lemma_lines_from_keep_tokens(Seq::empty(), tail);
        assert(Seq::<char>::empty() + tail == tail);
        lemma_line_tokens_front(strip_cr(open), lines_from(Seq::empty(), tail));
        assert(open + rest == head + tail);
        lemma_tokens_concat(head, tail);
        assert(head.drop_last() == open);
        assert(tokens(head) == tokens(open));
        if open.len() > 0 && open.last() == '\r' {
            assert(tokens(open) == tokens(open.drop_last()));
        }
    } else {
        lemma_lines_from_keep_tokens(open.push(rest[0]), rest.drop_first());
        assert(open + rest == open.push(rest[0]) + rest.drop_first());
    }
}

/// Splitting a text into lines keeps its tokens: those of the lines, read in
/// order, are the tokens of the text. No token reaches across a line break.
pub proof fn lemma_lines_keep_tokens(s: Seq<char>)
    ensures
        line_tokens(lines(s)) == tokens(s),
{
    lemma_lines_from_keep_tokens(Seq::empty(), s);
    assert(Seq::<char>::empty() + s == s);
}

/// Whitespace at the end of a text adds no token.
pub proof fn lemma_tokens_ignore_trailing_whitespace(s: Seq<char>, space: Seq<char>)
    requires
        forall|i: int| 0 <= i < space.len() ==> is_whitespace(space[i]),
    ensures
        tokens(s + space) == tokens(s),
    decreases space.len(),
{
    if space.len() == 0 {
        assert(s + space == s);
    } else {
        let all = s + space;
        assert(all.drop_last() == s + space.drop_last());
        assert(all.last() == space.last());
        lemma_tokens_ignore_trailing_whitespace(s, space.drop_last());
    }
}

/// Trimming a text at its end keeps its tokens.
pub proof fn lemma_trim_end_keeps_tokens(s: Seq<char>)
    ensures
        tokens(trim_end(s)) == tokens(s),
{
    lemma_trim_end(s);
    lemma_tokens_ignore_trailing_whitespace(trim_end(s), trailing_whitespace(s));
}

} // verus!
