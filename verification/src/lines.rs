use vstd::prelude::*;

verus! {

/// Whether a character ends a line.
pub open spec fn is_break(c: char) -> bool {
    c == '\n' || c == '\r'
}

/// The number of characters before the first line break of `text`, or its
/// length if it has none.
pub open spec fn line_len(text: Seq<char>) -> nat
    decreases text.len(),
{
    if text.len() == 0 || is_break(text[0]) {
        0
    } else {
        1 + line_len(text.skip(1))
    }
}

/// The length of the line ending at the start of `rest`: 2 for a carriage
/// return and a line feed together, in either order, else 1.
pub open spec fn ending_len(rest: Seq<char>) -> nat {
    if rest.len() >= 2 && is_break(rest[1]) && rest[1] != rest[0] {
        2
    } else {
        1
    }
}

/// The lines of `text`: each stretch up to a line ending, and what follows the
/// last ending if anything does.
pub open spec fn split_lines(text: Seq<char>) -> Seq<Seq<char>>
    decreases text.len(),
{
    let n = line_len(text) as int;
    if text.len() == 0 {
        Seq::empty()
    } else if n >= text.len() {
        seq![text]
    } else {
        seq![text.take(n)] + split_lines(text.skip(n + ending_len(text.skip(n))))
    }
}

/// The lines that a buffer holds when it is filled with `text`: the lines of
/// the text, or one empty line if the text is empty.
pub open spec fn lines_of(text: Seq<char>) -> Seq<Seq<char>> {
    if text.len() == 0 {
        seq![Seq::empty()]
    } else {
        split_lines(text)
    }
}

/// The lines joined, with a line feed between one line and the next.
pub open spec fn joined(lines: Seq<Seq<char>>) -> Seq<char>
    decreases lines.len(),
{
    if lines.len() == 0 {
        Seq::empty()
    } else if lines.len() == 1 {
        lines[0]
    } else {
        lines[0] + seq!['\n'] + joined(lines.skip(1))
    }
}

/// The text that is written to a file for a buffer of these lines: the lines
/// joined, and a line feed after them unless they end in one.
pub open spec fn written(lines: Seq<Seq<char>>) -> Seq<char> {
    let body = joined(lines);
    if body.len() > 0 && body.last() == '\n' {
        body
    } else {
        body.push('\n')
    }
}

/// Whether a text comes back from a buffer as it went in: it ends in one line
/// feed, not in two, and holds no carriage return.
pub open spec fn is_kept(text: Seq<char>) -> bool {
    &&& text.len() > 0
    &&& text.last() == '\n'
    &&& text.len() >= 2 ==> text[text.len() - 2] != '\n'
    &&& forall|i: int| 0 <= i < text.len() ==> text[i] != '\r'
}

/// The first line of a text stops short of its first line break, and no
/// earlier.
pub proof fn lemma_line_len(text: Seq<char>)
    ensures
        line_len(text) <= text.len(),
        forall|i: int| 0 <= i < line_len(text) ==> !is_break(#[trigger] text[i]),
        line_len(text) < text.len() ==> is_break(text[line_len(text) as int]),
    decreases text.len(),
{
    if text.len() != 0 && !is_break(text[0]) {
        let rest = text.skip(1);
        lemma_line_len(rest);
        assert forall|i: int| 0 <= i < line_len(text) implies !is_break(#[trigger] text[i]) by {
            if i > 0 {
                assert(text[i] == rest[i - 1]);
            }
        }
        if line_len(text) < text.len() {
            assert(text[line_len(text) as int] == rest[line_len(rest) as int]);
        }
    }
}

/// A text that ends in a line feed and has no carriage return is its lines,
/// each followed by a line feed.
proof fn lemma_joined_split(text: Seq<char>)
    requires
        text.len() > 0,
        text.last() == '\n',
        forall|i: int| 0 <= i < text.len() ==> text[i] != '\r',
    ensures
        split_lines(text).len() >= 1,
        joined(split_lines(text)).push('\n') == text,
    decreases text.len(),
{
    lemma_line_len(text);
    let n = line_len(text) as int;
    if n >= text.len() {
        assert(!is_break(text[text.len() - 1]));
    }
    let from_break = text.skip(n);
    assert(from_break[0] == text[n]);
    if from_break.len() >= 2 {
        assert(from_break[1] == text[n + 1]);
    }
    assert(ending_len(from_break) == 1);
    let rest = text.skip(n + 1);
    if rest.len() == 0 {
        assert(split_lines(rest) =~= Seq::<Seq<char>>::empty());
        assert(split_lines(text) =~= seq![text.take(n)]);
        assert(text.take(n).push('\n') =~= text);
    } else {
        assert(rest.last() == text.last());
        assert forall|i: int| 0 <= i < rest.len() implies rest[i] != '\r' by {
            assert(rest[i] == text[i + n + 1]);
        }
        lemma_joined_split(rest);
        let tail = split_lines(rest);
        let all = seq![text.take(n)] + tail;
        assert(split_lines(text) == all);
        assert(all.skip(1) =~= tail);
        assert(joined(all) == text.take(n) + seq!['\n'] + joined(tail));
        assert(joined(all).push('\n') =~= text.take(n) + seq!['\n'] + joined(tail).push('\n'));
        assert(text.take(n) + seq!['\n'] + rest =~= text);
    }
}

/// The lines of a text, joined, hold no carriage return.
proof fn lemma_joined_split_has_no_return(text: Seq<char>)
    ensures
        forall|i: int|
            0 <= i < joined(split_lines(text)).len() ==> joined(split_lines(text))[i] != '\r',
    decreases text.len(),
{
    lemma_line_len(text);
    let n = line_len(text) as int;
    if text.len() == 0 {
    } else if n >= text.len() {
        assert(split_lines(text) =~= seq![text]);
    } else {
        let rest = text.skip(n + ending_len(text.skip(n)));
        lemma_joined_split_has_no_return(rest);
        let tail = split_lines(rest);
        let all = seq![text.take(n)] + tail;
        assert(split_lines(text) == all);
        if tail.len() == 0 {
            assert(all =~= seq![text.take(n)]);
        } else {
            assert(all.skip(1) =~= tail);
            assert(joined(all) == text.take(n) + seq!['\n'] + joined(tail));
        }
    }
}

/// A buffer that is filled with a text and written out at once gives the text
/// back as it was exactly when the text ends in one line feed, not in two, and
/// holds no carriage return.
pub proof fn lemma_written_lines(text: Seq<char>)
    ensures
        written(lines_of(text)) == text <==> is_kept(text),
{
    let out = written(lines_of(text));
    if text.len() == 0 {
        assert(out.len() > 0);
    } else if exists|i: int| 0 <= i < text.len() && text[i] == '\r' {
        let i = choose|i: int| 0 <= i < text.len() && text[i] == '\r';
        lemma_joined_split_has_no_return(text);
        if out == text {
            assert(out[i] == '\r');
        }
    } else if text.last() != '\n' {
        assert(out.last() == '\n');
    } else {
        lemma_joined_split(text);
        let body = joined(split_lines(text));
        assert(body =~= text.drop_last());
        if text.len() >= 2 {
            assert(body.last() == text[text.len() - 2]);
        }
    }
}

} // verus!
