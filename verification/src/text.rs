//! Text helpers, specified over `Seq<char>`: joining parts, gluing a prefix
//! to a text, and splitting a text into its lines.

use vstd::prelude::*;
use vstd::string::*;

verus! {

/// The views of a list of strings, in order.
pub open spec fn texts(parts: Seq<String>) -> Seq<Seq<char>> {
    parts.map_values(|s: String| s@)
}

/// The views of a list of string slices, in order.
pub open spec fn slice_texts(parts: Seq<&str>) -> Seq<Seq<char>> {
    parts.map_values(|s: &str| s@)
}

/// `parts` written one after another with `sep` between neighbours.
pub open spec fn join_with(parts: Seq<Seq<char>>, sep: Seq<char>) -> Seq<char>
    decreases parts.len(),
{
    if parts.len() == 0 {
        Seq::empty()
    } else if parts.len() == 1 {
        parts[0]
    } else {
        join_with(parts.drop_last(), sep) + sep + parts.last()
    }
}

/// The position of the first line feed in `text`, or `text.len()` when it
/// holds none.
pub open spec fn first_break(text: Seq<char>) -> int
    decreases text.len(),
{
    if text.len() == 0 || text[0] == '\n' {
        0
    } else {
        1 + first_break(text.drop_first())
    }
}

/// `line` without one carriage return at its end, if it has one there.
pub open spec fn without_trailing_cr(line: Seq<char>) -> Seq<char> {
    if line.len() > 0 && line.last() == '\r' {
        line.drop_last()
    } else {
        line
    }
}

/// The lines of `text`. A line ends at a line feed, or at a carriage return
/// directly followed by one; the terminator belongs to no line. What follows
/// the last line feed is a line of its own unless it is empty, and keeps a
/// carriage return at its end.
pub open spec fn lines_of(text: Seq<char>) -> Seq<Seq<char>>
    decreases text.len(),
{
    let k = first_break(text);
    if text.len() == 0 {
        Seq::empty()
    } else if 0 <= k < text.len() {
        seq![without_trailing_cr(text.take(k))] + lines_of(text.skip(k + 1))
    } else {
        seq![text]
    }
}

/// `first_break` is the least position of a line feed.
pub proof fn first_break_is_least(text: Seq<char>)
    ensures
        0 <= first_break(text) <= text.len(),
        forall|i: int| 0 <= i < first_break(text) ==> text[i] != '\n',
        first_break(text) < text.len() ==> text[first_break(text)] == '\n',
    decreases text.len(),
{
    if text.len() > 0 && text[0] != '\n' {
        let rest = text.drop_first();
        first_break_is_least(rest);
        assert forall|i: int| 0 <= i < first_break(text) implies text[i] != '\n' by {
            if i > 0 {
                assert(text[i] == rest[i - 1]);
            }
        }
        assert(first_break(rest) < rest.len() ==> rest[first_break(rest)] == text[first_break(
            text,
        )]);
    }
}

/// A position that no line feed precedes, and that holds one or is the end,
/// is the first break.
pub proof fn first_break_found(text: Seq<char>, k: int)
    requires
        0 <= k <= text.len(),
        forall|i: int| 0 <= i < k ==> text[i] != '\n',
        k < text.len() ==> text[k] == '\n',
    ensures
        first_break(text) == k,
{
    first_break_is_least(text);
    let found = first_break(text);
    if found < k {
        assert(text[found] == '\n');
    } else if found > k {
        assert(text[k] != '\n');
    }
}

/// In a text, what stands from `start` on has its first line ending at `end`:
/// the lines from `start` are that line and the lines after `end`.
proof fn line_closes(text: Seq<char>, start: int, end: int)
    requires
        0 <= start <= end < text.len(),
        forall|i: int| start <= i < end ==> text[i] != '\n',
        text[end] == '\n',
    ensures
        lines_of(text.skip(start)) == seq![without_trailing_cr(text.subrange(start, end))]
            + lines_of(text.skip(end + 1)),
{
    let rest = text.skip(start);
    first_break_found(rest, end - start);
    assert(rest.take(end - start) =~= text.subrange(start, end));
    assert(rest.skip(end - start + 1) =~= text.skip(end + 1));
}

/// What stands from `start` on, when it holds no line feed, is one line, or
/// none if it is empty.
proof fn last_line_stays(text: Seq<char>, start: int)
    requires
        0 <= start <= text.len(),
        forall|i: int| start <= i < text.len() ==> text[i] != '\n',
    ensures
        lines_of(text.skip(start)) == if start == text.len() {
            Seq::<Seq<char>>::empty()
        } else {
            seq![text.skip(start)]
        },
{
    let rest = text.skip(start);
    first_break_found(rest, rest.len() as int);
}

/// `String::push` of std: the string afterwards is the string before with
/// the character added at its end.
pub assume_specification[ String::push ](s: &mut String, ch: char)
    ensures
        final(s)@ == old(s)@.push(ch),
;

/// Joins `parts` with `sep` between neighbours.
pub fn join(parts: &Vec<String>, sep: &str) -> (joined: String)
    ensures
        joined@ == join_with(texts(parts@), sep@),
{
    let mut joined = String::new();
    let mut i: usize = 0;
    while i < parts.len()
        invariant
            i <= parts.len(),
            joined@ == join_with(texts(parts@).take(i as int), sep@),
        decreases parts.len() - i,
    {
        if i > 0 {
            joined.append(sep);
        }
        joined.append(parts[i].as_str());
        proof {
            let all = texts(parts@);
            assert(all.take(i + 1).drop_last() =~= all.take(i as int));
            assert(all.take(i + 1).last() == parts@[i as int]@);
        }
        i += 1;
    }
    proof {
        assert(texts(parts@).take(parts.len() as int) =~= texts(parts@));
    }
    joined
}

/// `prefix` followed by `text`.
pub fn prefixed(prefix: &str, text: &str) -> (glued: String)
    ensures
        glued@ == prefix@ + text@,
{
    let mut glued = String::from_str(prefix);
    glued.append(text);
    glued
}

/// A copy of `parts`.
pub fn copy_texts(parts: &Vec<String>) -> (copy: Vec<String>)
    ensures
        texts(copy@) == texts(parts@),
{
    let mut copy: Vec<String> = Vec::new();
    let mut i: usize = 0;
    while i < parts.len()
        invariant
            i <= parts.len(),
            texts(copy@) == texts(parts@).take(i as int),
        decreases parts.len() - i,
    {
        let part = parts[i].clone();
        proof {
            assert(part@ == parts@[i as int]@);
            assert(texts(parts@).take(i + 1) =~= texts(parts@).take(i as int).push(part@));
            assert(texts(copy@.push(part)) =~= texts(copy@).push(part@));
        }
        copy.push(part);
        i += 1;
    }
    proof {
        assert(texts(parts@).take(parts.len() as int) =~= texts(parts@));
    }
    copy
}

/// Splits `text` into its lines.
pub fn split_lines(text: &str) -> (lines: Vec<String>)
    ensures
        texts(lines@) == lines_of(text@),
{
    let mut lines: Vec<String> = Vec::new();
    let mut current = String::new();
    // A carriage return was read and is not in `current` yet: it is dropped
    // if a line feed follows, and kept otherwise.
    let mut held_cr = false;
    let ghost mut start: int = 0;
    proof {
        assert(text@.skip(0) =~= text@);
    }
    for c in it: text.chars()
        invariant
            it.seq() == text@,
            0 <= start <= it.index() <= text@.len(),
            texts(lines@) + lines_of(text@.skip(start)) == lines_of(text@),
            forall|j: int| start <= j < it.index() ==> text@[j] != '\n',
            current@ + (if held_cr {
                seq!['\r']
            } else {
                Seq::<char>::empty()
            }) == text@.subrange(start, it.index()),
            !held_cr && current@.len() > 0 ==> current@.last() != '\r',
    {
        let ghost at = it.index();
        let ghost line = text@.subrange(start, at);
        if c == '\n' {
            proof {
                line_closes(text@, start, at);
                if held_cr {
                    assert(line.drop_last() =~= current@);
                } else {
                    assert(line =~= current@);
                }
                assert(without_trailing_cr(line) == current@);
                assert(texts(lines@.push(current)) =~= texts(lines@).push(current@));
                assert(texts(lines@).push(current@) + lines_of(text@.skip(at + 1)) =~= texts(lines@)
                    + (seq![current@] + lines_of(text@.skip(at + 1))));
                start = at + 1;
            }
            lines.push(current);
            current = String::new();
            held_cr = false;
        } else {
            if held_cr {
                current.push('\r');
            }
            if c == '\r' {
                held_cr = true;
            } else {
                current.push(c);
                held_cr = false;
            }
            proof {
                assert(text@.subrange(start, at + 1) =~= line.push(c));
            }
        }
    }
    proof {
        last_line_stays(text@, start);
    }
    if held_cr {
        current.push('\r');
    }
    if !current.as_str().is_empty() {
        proof {
            assert(current@ =~= text@.skip(start));
            assert(texts(lines@.push(current)) =~= texts(lines@).push(current@));
        }
        lines.push(current);
    }
    lines
}

} // verus!
