//! Text as lines: how a text divides into the lines of a document and how
//! the lines go back into one text.

use vstd::prelude::*;

verus! {

/// The lines of a vector of lines, as sequences of characters.
pub open spec fn lines_view(lines: Seq<Vec<char>>) -> Seq<Seq<char>> {
    Seq::new(lines.len(), |i: int| lines[i]@)
}

/// `line` without the carriage return that it ends with, if it ends with
/// one.
pub open spec fn strip_cr(line: Seq<char>) -> Seq<char> {
    if line.len() > 0 && line.last() == '\r' {
        line.drop_last()
    } else {
        line
    }
}

/// The lines of `text` from `start` on, where nothing between `start` and
/// `pos` is a line feed. A line ends at a line feed, or at a carriage return
/// directly before one; what follows the last line feed is a line if it is
/// not empty.
pub open spec fn lines_from(text: Seq<char>, start: int, pos: int) -> Seq<Seq<char>>
    decreases text.len() - pos,
{
    if pos >= text.len() {
        if start >= text.len() {
            Seq::empty()
        } else {
            seq![text.subrange(start, text.len() as int)]
        }
    } else if text[pos] == '\n' {
        seq![strip_cr(text.subrange(start, pos))] + lines_from(text, pos + 1, pos + 1)
    } else {
        lines_from(text, start, pos + 1)
    }
}

/// The lines of `text`. A final line feed starts no further line, so the
/// empty text has no lines.
pub open spec fn split_lines(text: Seq<char>) -> Seq<Seq<char>> {
    lines_from(text, 0, 0)
}

/// The lines of the document that `text` opens as: its lines, or one empty
/// line where it has none.
pub open spec fn document_lines(text: Seq<char>) -> Seq<Seq<char>> {
    if split_lines(text).len() == 0 {
        seq![Seq::<char>::empty()]
    } else {
        split_lines(text)
    }
}

/// The lines joined by single line feeds, with none at the end.
pub open spec fn join_lines(lines: Seq<Seq<char>>) -> Seq<char>
    decreases lines.len(),
{
    if lines.len() == 0 {
        Seq::empty()
    } else if lines.len() == 1 {
        lines[0]
    } else {
        join_lines(lines.drop_last()) + seq!['\n'] + lines.last()
    }
}

/// `text` without the line feed that it ends with, if it ends with one.
pub open spec fn strip_final_break(text: Seq<char>) -> Seq<char> {
    if text.len() > 0 && text.last() == '\n' {
        text.drop_last()
    } else {
        text
    }
}

/// No line feed of `text` follows a carriage return.
pub open spec fn no_cr_before_break(text: Seq<char>) -> bool {
    forall|i: int| 0 < i < text.len() && #[trigger] text[i] == '\n' ==> text[i - 1] != '\r'
}

/// Joining a line and further lines puts one line feed between them.
pub proof fn lemma_join_first(first: Seq<char>, rest: Seq<Seq<char>>)
    ensures
        join_lines(seq![first] + rest) == if rest.len() == 0 {
            first
        } else {
            first + seq!['\n'] + join_lines(rest)
        },
    decreases rest.len(),
{
    let all = seq![first] + rest;
    if rest.len() == 0 {
        assert(all[0] == first);
    } else {
        assert(all.drop_last() =~= seq![first] + rest.drop_last());
        assert(all.last() == rest.last());
        lemma_join_first(first, rest.drop_last());
        if rest.len() == 1 {
            assert(join_lines(rest) == rest.last());
        } else {
            assert(first + seq!['\n'] + join_lines(rest) =~= first + seq!['\n'] + join_lines(
                rest.drop_last(),
            ) + seq!['\n'] + rest.last());
        }
    }
}

/// What `lemma_lines_round_trip` says, of the lines from any position.
pub proof fn lemma_join_lines_from(text: Seq<char>, start: int, pos: int)
    requires
        0 <= start <= pos <= text.len(),
        forall|i: int| start <= i < pos ==> text[i] != '\n',
        no_cr_before_break(text),
    ensures
        join_lines(lines_from(text, start, pos)) == strip_final_break(
            text.subrange(start, text.len() as int),
        ),
        lines_from(text, start, pos).len() == 0 <==> start >= text.len(),
    decreases text.len() - pos,
{
    let end = text.len() as int;
    let tail = text.subrange(start, end);
    if pos >= text.len() {
        if start < text.len() {
            assert(tail.last() == text[end - 1]);
            assert(seq![tail][0] == tail);
        }
    } else if text[pos] == '\n' {
        let line = text.subrange(start, pos);
        let rest = lines_from(text, pos + 1, pos + 1);
        if pos > start {
            assert(line.last() == text[pos - 1]);
        }
        assert(strip_cr(line) == line);
        lemma_join_lines_from(text, pos + 1, pos + 1);
        lemma_join_first(line, rest);
        assert(tail.last() == text[end - 1]);
        if pos + 1 == end {
            assert(tail.drop_last() =~= line);
        } else {
            let after = text.subrange(pos + 1, end);
            assert(after.last() == text[end - 1]);
            if text[end - 1] == '\n' {
                assert(line + seq!['\n'] + after.drop_last() =~= tail.drop_last());
            } else {
                assert(line + seq!['\n'] + after =~= tail);
            }
        }
    } else {
        lemma_join_lines_from(text, start, pos + 1);
    }
}

/// A text that opens as a document comes back when the document's lines are
/// joined, but for a final line feed, which is not kept. This holds of a
/// text in which no line feed follows a carriage return: such a carriage
/// return belongs to the line break and is not kept either.
pub proof fn lemma_lines_round_trip(text: Seq<char>)
    requires
        no_cr_before_break(text),
    ensures
        join_lines(document_lines(text)) == strip_final_break(text),
{
    lemma_join_lines_from(text, 0, 0);
    assert(text.subrange(0, text.len() as int) =~= text);
    if split_lines(text).len() == 0 {
        assert(seq![Seq::<char>::empty()][0] == Seq::<char>::empty());
    }
}

/// Calls `String::push` of std.
///
/// The contract says what its documentation says: afterwards the string is
/// what it was with `c` appended.
#[verifier::external_body]
fn push_char(s: &mut String, c: char)
    ensures
        final(s)@ == old(s)@.push(c),
{
    s.push(c)
}

/// The characters of `s`.
pub fn chars_of(s: &str) -> (chars: Vec<char>)
    ensures
        chars@ == s@,
{
    let mut chars: Vec<char> = Vec::new();
    for c in it: s.chars()
        invariant
            it.seq() == s@,
            chars@ == it.seq().take(it.index() as int),
    {
        chars.push(c);
    }
    chars
}

/// Divides `text` into lines.
pub fn split_text(text: &Vec<char>) -> (lines: Vec<Vec<char>>)
    ensures
        lines_view(lines@) == split_lines(text@),
        forall|i: int| 0 <= i < lines@.len() ==> (#[trigger] lines@[i])@.len() <= text@.len(),
{
    let mut lines: Vec<Vec<char>> = Vec::new();
    let mut current: Vec<char> = Vec::new();
    let ghost mut start: int = 0;
    let mut pos: usize = 0;
    while pos < text.len()
        invariant
            0 <= start <= pos <= text@.len(),
            current@ == text@.subrange(start, pos as int),
            split_lines(text@) == lines_view(lines@) + lines_from(text@, start, pos as int),
            forall|i: int| 0 <= i < lines@.len() ==> (#[trigger] lines@[i])@.len() <= text@.len(),
        decreases text@.len() - pos,
    {
        let c = text[pos];
        if c == '\n' {
            if current.len() > 0 && current[current.len() - 1] == '\r' {
                current.pop();
            }
            proof {
                assert(current@ == strip_cr(text@.subrange(start, pos as int)));
                assert(lines_view(lines@.push(current)) + lines_from(text@, pos + 1, pos + 1)
                    =~= lines_view(lines@) + lines_from(text@, start, pos as int));
                start = pos + 1;
            }
            lines.push(current);
            current = Vec::new();
            assert(current@ =~= text@.subrange(start, pos + 1));
        } else {
            assert(current@.push(c) =~= text@.subrange(start, pos + 1));
            current.push(c);
        }
        pos += 1;
    }
    if current.len() > 0 {
        proof {
            assert(lines_view(lines@.push(current)) =~= lines_view(lines@) + lines_from(
                text@,
                start,
                pos as int,
            ));
        }
        lines.push(current);
    } else {
        assert(lines_view(lines@) =~= lines_view(lines@) + lines_from(text@, start, pos as int));
    }
    lines
}

/// Joins `lines` by line feeds into one text.
pub fn join_text(lines: &Vec<Vec<char>>) -> (content: String)
    ensures
        content@ == join_lines(lines_view(lines@)),
{
    let mut content = String::new();
    let mut i: usize = 0;
    while i < lines.len()
        invariant
            i <= lines@.len(),
            content@ == join_lines(lines_view(lines@).take(i as int)),
        decreases lines@.len() - i,
    {
        if i > 0 {
            push_char(&mut content, '\n');
        }
        let line = &lines[i];
        let ghost before = content@;
        let mut j: usize = 0;
        while j < line.len()
            invariant
                j <= line@.len(),
                content@ == before + line@.take(j as int),
            decreases line@.len() - j,
        {
            push_char(&mut content, line[j]);
            assert(line@.take(j + 1) =~= line@.take(j as int).push(line@[j as int]));
            j += 1;
        }
        proof {
            let all = lines_view(lines@);
            assert(line@.take(j as int) =~= line@);
            assert(all.take(i + 1).drop_last() =~= all.take(i as int));
            assert(all.take(i + 1).last() == line@);
            if i == 0 {
                assert(all.take(1)[0] == line@);
                assert(before + line@ =~= line@);
            } else {
                assert(before =~= join_lines(all.take(i as int)) + seq!['\n']);
            }
        }
        i += 1;
    }
    assert(lines_view(lines@).take(i as int) =~= lines_view(lines@));
    content
}

} // verus!
