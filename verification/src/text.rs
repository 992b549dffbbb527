//! Small verified helpers on text.

use vstd::prelude::*;
use vstd::std_specs::iter::IteratorSpec;
use vstd::string::StrSliceExecFns;

verus! {

/// Whether two texts hold the same characters.
pub fn same_text(a: &str, b: &str) -> (same: bool)
    ensures
        same == (a@ == b@),
{
    broadcast use vstd::string::group_string_axioms;
    let mut left = a.chars();
    let mut right = b.chars();
    let ghost mut done: int = 0;
    loop
        invariant
            0 <= done <= a@.len(),
            done <= b@.len(),
            left.remaining() == a@.skip(done),
            right.remaining() == b@.skip(done),
            a@.take(done) == b@.take(done),
            left.obeys_prophetic_iter_laws(),
            right.obeys_prophetic_iter_laws(),
        decreases a@.len() - done,
    {
        let x = left.next();
        let y = right.next();
        match (x, y) {
            (None, None) => {
                assert(a@ =~= a@.take(done));
                assert(b@ =~= b@.take(done));
                return true;
            },
            (Some(p), Some(q)) => {
                if p != q {
                    assert(a@[done] != b@[done]);
                    return false;
                }
                proof {
                    assert(a@.take(done + 1) =~= a@.take(done).push(a@[done]));
                    assert(b@.take(done + 1) =~= b@.take(done).push(b@[done]));
                    assert(a@.skip(done).drop_first() =~= a@.skip(done + 1));
                    assert(b@.skip(done).drop_first() =~= b@.skip(done + 1));
                    done = done + 1;
                }
            },
            _ => {
                assert(a@.len() != b@.len());
                return false;
            },
        }
    }
}

/// Whether a needle stands in a text at a position.
pub open spec fn occurs_at(text: Seq<char>, needle: Seq<char>, at: int) -> bool {
    0 <= at && at + needle.len() <= text.len() && text.subrange(at, at + needle.len()) == needle
}

/// Whether a needle stands somewhere in a text.
pub open spec fn contains_text(text: Seq<char>, needle: Seq<char>) -> bool {
    exists|at: int| occurs_at(text, needle, at)
}

/// Whether a needle stands somewhere in a text.
pub fn contains(text: &str, needle: &str) -> (found: bool)
    ensures
        found == contains_text(text@, needle@),
{
    let length = text.unicode_len();
    let width = needle.unicode_len();
    if width > length {
        return false;
    }
    let last = length - width;
    let mut at: usize = 0;
    loop
        invariant
            length == text@.len(),
            width == needle@.len(),
            last == length - width,
            at <= last,
            forall|before: int| 0 <= before < at ==> !occurs_at(text@, needle@, before),
        decreases last - at,
    {
        if same_text(text.substring_char(at, at + width), needle) {
            assert(occurs_at(text@, needle@, at as int));
            return true;
        }
        if at == last {
            return false;
        }
        at = at + 1;
    }
}

/// The lines of a text: the pieces between its line feeds, in order.
///
/// A text without a line feed is one line; a text that ends in a line feed
/// has an empty last line.
pub open spec fn lines_of(text: Seq<char>) -> Seq<Seq<char>>
    decreases text.len(),
{
    if text.len() == 0 {
        seq![Seq::<char>::empty()]
    } else {
        let before = lines_of(text.drop_last());
        if text.last() == '\n' {
            before.push(Seq::<char>::empty())
        } else {
            before.drop_last().push(before.last().push(text.last()))
        }
    }
}

/// Texts put together with a line feed between each two.
pub open spec fn joined(lines: Seq<Seq<char>>) -> Seq<char>
    decreases lines.len(),
{
    if lines.len() == 0 {
        Seq::<char>::empty()
    } else if lines.len() == 1 {
        lines[0]
    } else {
        joined(lines.drop_last()) + seq!['\n'] + lines.last()
    }
}

/// The lines of a text are what splitting at line feeds means: there is at
/// least one line, no line holds a line feed, and the lines joined by line
/// feeds give the text back.
pub proof fn lemma_lines_partition(text: Seq<char>)
    ensures
        lines_of(text).len() >= 1,
        joined(lines_of(text)) == text,
        forall|i: int, j: int|
            0 <= i < lines_of(text).len() && 0 <= j < lines_of(text)[i].len() ==> lines_of(
                text,
            )[i][j] != '\n',
    decreases text.len(),
{
    let lines = lines_of(text);
    if text.len() == 0 {
        assert(joined(lines) =~= text);
    } else {
        let before = lines_of(text.drop_last());
        lemma_lines_partition(text.drop_last());
        if text.last() == '\n' {
            assert(lines.drop_last() =~= before);
            assert(joined(lines) =~= text.drop_last() + seq!['\n'] + Seq::<char>::empty());
            assert(joined(lines) =~= text);
        } else {
            let grown = before.last().push(text.last());
            assert(lines.last() == grown);
            if before.len() == 1 {
                assert(joined(lines) =~= joined(before).push(text.last()));
            } else {
                assert(lines.drop_last() =~= before.drop_last());
                assert(joined(lines) =~= joined(before).push(text.last()));
            }
            assert(joined(lines) =~= text);
            assert forall|i: int, j: int|
                0 <= i < lines.len() && 0 <= j < lines[i].len() implies lines[i][j] != '\n' by {
                if i < lines.len() - 1 {
                    assert(lines[i] == before[i]);
                } else if j < before.last().len() {
                    assert(lines[i][j] == before.last()[j]);
                }
            }
        }
    }
}

/// The characters of each text of a sequence.
pub open spec fn views_of(texts: Seq<&str>) -> Seq<Seq<char>> {
    Seq::new(texts.len(), |i: int| texts[i]@)
}

/// The characters of each owned text of a sequence.
pub open spec fn texts_of(texts: Seq<String>) -> Seq<Seq<char>> {
    Seq::new(texts.len(), |i: int| texts[i]@)
}

/// Splits a text at every line feed.
pub fn split_lines(text: &str) -> (lines: Vec<&str>)
    ensures
        views_of(lines@) == lines_of(text@),
{
    broadcast use vstd::string::group_string_axioms;
    let total = text.unicode_len();
    let mut lines: Vec<&str> = Vec::new();
    let mut start: usize = 0;
    let mut at: usize = 0;
    let mut rest = text.chars();
    assert(text@.take(0) =~= Seq::<char>::empty());
    assert(views_of(lines@).push(text@.subrange(0, 0)) =~= lines_of(text@.take(0)));
    loop
        invariant
            total == text@.len(),
            start <= at <= total,
            rest.remaining() == text@.skip(at as int),
            rest.obeys_prophetic_iter_laws(),
            lines_of(text@.take(at as int)) == views_of(lines@).push(
                text@.subrange(start as int, at as int),
            ),
        decreases total - at,
    {
        match rest.next() {
            None => {
                assert(text@.take(at as int) =~= text@);
                let ghost before = lines@;
                lines.push(text.substring_char(start, at));
                assert(views_of(lines@) =~= views_of(before).push(
                    text@.subrange(start as int, at as int),
                ));
                return lines;
            },
            Some(c) => {
                let ghost seen = text@.take(at as int);
                let ghost next = text@.take(at + 1);
                assert(c == text@[at as int]);
                assert(next.drop_last() =~= seen);
                assert(next.last() == c);
                assert(text@.skip(at as int).drop_first() =~= text@.skip(at + 1));
                if c == '\n' {
                    let ghost before = lines@;
                    lines.push(text.substring_char(start, at));
                    assert(views_of(lines@) =~= views_of(before).push(
                        text@.subrange(start as int, at as int),
                    ));
                    start = at + 1;
                    assert(text@.subrange(start as int, at + 1) =~= Seq::<char>::empty());
                } else {
                    assert(text@.subrange(start as int, at + 1) =~= text@.subrange(
                        start as int,
                        at as int,
                    ).push(c));
                    assert(views_of(lines@).push(text@.subrange(start as int, at as int)).drop_last()
                        =~= views_of(lines@));
                }
                at = at + 1;
            },
        }
    }
}

} // verus!
