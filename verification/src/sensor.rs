//! Decoding what the accelerometer's value files hold.

use crate::text::{contains, contains_text, texts_of};
use vstd::prelude::*;
use vstd::std_specs::iter::IteratorSpec;
use vstd::string::StrSliceExecFns;

verus! {

/// One reading of the accelerometer, in raw counts.
#[derive(Clone, Copy, Debug, PartialEq, Eq, Structural)]
pub struct RawSample {
    pub x: i32,
    pub y: i32,
}

/// An axis of the accelerometer.
#[derive(Clone, Copy, Debug, PartialEq, Eq, Structural)]
pub enum Axis {
    X,
    Y,
    Z,
}

/// The value files that the samples are read from. A path is empty where no
/// file of that axis was found.
#[derive(Debug)]
pub struct SensorPaths {
    pub x: String,
    pub y: String,
}

/// A path among the accelerometer's value files that names no axis.
#[derive(Clone, Copy, Debug, PartialEq, Eq, Structural)]
pub struct UnknownPath {
    /// Position of the path in the list.
    pub index: usize,
}

/// The axis that the path of a value file names: the first of X, Y and Z
/// whose file name stands in it.
pub open spec fn axis_named(path: Seq<char>) -> Option<Axis> {
    if contains_text(path, "x_raw"@) {
        Some(Axis::X)
    } else if contains_text(path, "y_raw"@) {
        Some(Axis::Y)
    } else if contains_text(path, "z_raw"@) {
        Some(Axis::Z)
    } else {
        None
    }
}

/// The files chosen among paths that all name an axis: for X and for Y the
/// last path that names the axis, and the empty path where none does.
pub open spec fn chosen_paths(paths: Seq<Seq<char>>) -> (Seq<char>, Seq<char>)
    decreases paths.len(),
{
    if paths.len() == 0 {
        (Seq::<char>::empty(), Seq::<char>::empty())
    } else {
        let before = chosen_paths(paths.drop_last());
        match axis_named(paths.last()) {
            Some(Axis::X) => (paths.last(), before.1),
            Some(Axis::Y) => (before.0, paths.last()),
            _ => before,
        }
    }
}

/// Whether a position is the first one whose path names no axis.
pub open spec fn first_unknown(paths: Seq<Seq<char>>, index: int) -> bool {
    &&& 0 <= index < paths.len()
    &&& axis_named(paths[index]) is None
    &&& forall|i: int| 0 <= i < index ==> axis_named(#[trigger] paths[i]) is Some
}

/// A text without the line feeds at its end.
pub open spec fn trimmed(text: Seq<char>) -> Seq<char>
    decreases text.len(),
{
    if text.len() > 0 && text.last() == '\n' {
        trimmed(text.drop_last())
    } else {
        text
    }
}

/// Whether a character is one of the ten decimal digits.
pub open spec fn is_digit(c: char) -> bool {
    '0' <= c <= '9'
}

/// The number that a decimal digit stands for.
pub open spec fn digit_value(c: char) -> int {
    c as int - '0' as int
}

/// Whether a text holds decimal digits only.
pub open spec fn all_digits(digits: Seq<char>) -> bool {
    forall|i: int| 0 <= i < digits.len() ==> is_digit(#[trigger] digits[i])
}

/// The number that a run of decimal digits denotes.
pub open spec fn digits_value(digits: Seq<char>) -> int
    decreases digits.len(),
{
    if digits.len() == 0 {
        0
    } else {
        10 * digits_value(digits.drop_last()) + digit_value(digits.last())
    }
}

/// The digits of a decimal text: what follows its sign, if it has one.
pub open spec fn digits_of(text: Seq<char>) -> Seq<char> {
    if text.len() > 0 && (text[0] == '-' || text[0] == '+') {
        text.drop_first()
    } else {
        text
    }
}

/// The integer that a decimal text denotes: an optional sign, then at least
/// one digit and nothing else.
pub open spec fn decimal(text: Seq<char>) -> Option<int> {
    let digits = digits_of(text);
    if digits.len() == 0 || !all_digits(digits) {
        None
    } else if text[0] == '-' {
        Some(-digits_value(digits))
    } else {
        Some(digits_value(digits))
    }
}

/// The 32-bit integer that a decimal text denotes, if it denotes one.
pub open spec fn decimal_i32(text: Seq<char>) -> Option<i32> {
    match decimal(text) {
        Some(value) => if i32::MIN <= value <= i32::MAX {
            Some(value as i32)
        } else {
            None
        },
        None => None,
    }
}

/// The sample that a value file stands for: the integer it holds before its
/// closing line feeds, and 0 where it holds none.
pub open spec fn sample_of(text: Seq<char>) -> i32 {
    match decimal_i32(trimmed(text)) {
        Some(value) => value,
        None => 0,
    }
}

/// Trimming cuts off exactly the line feeds at the end: what is kept opens
/// the text and does not end in a line feed, and what is cut holds line feeds
/// only.
pub proof fn lemma_trimmed_cuts_line_feeds(text: Seq<char>)
    ensures
        trimmed(text).len() <= text.len(),
        trimmed(text) == text.take(trimmed(text).len() as int),
        trimmed(text).len() > 0 ==> trimmed(text).last() != '\n',
        forall|i: int| trimmed(text).len() <= i < text.len() ==> text[i] == '\n',
    decreases text.len(),
{
    if text.len() > 0 && text.last() == '\n' {
        lemma_trimmed_cuts_line_feeds(text.drop_last());
        let kept = trimmed(text);
        let head = text.drop_last();
        assert(head.take(kept.len() as int) =~= text.take(kept.len() as int));
        assert forall|i: int| kept.len() <= i < text.len() implies text[i] == '\n' by {
            if i < head.len() {
                assert(head[i] == text[i]);
            }
        }
    } else {
        assert(text.take(text.len() as int) =~= text);
    }
}

/// A run of digits denotes no less with one more digit behind it.
pub proof fn lemma_digits_value_grows(digits: Seq<char>)
    requires
        digits.len() > 0,
        all_digits(digits),
    ensures
        0 <= digits_value(digits.drop_last()) <= digits_value(digits),
    decreases digits.len(),
{
    let head = digits.drop_last();
    assert(is_digit(digits[digits.len() - 1]));
    if head.len() > 0 {
        assert forall|i: int| 0 <= i < head.len() implies is_digit(#[trigger] head[i]) by {
            assert(head[i] == digits[i]);
        }
        lemma_digits_value_grows(head);
    }
}

/// Tells which axis the path of a value file names.
pub fn axis_of_path(path: &str) -> (axis: Option<Axis>)
    ensures
        axis == axis_named(path@),
{
    if contains(path, "x_raw") {
        Some(Axis::X)
    } else if contains(path, "y_raw") {
        Some(Axis::Y)
    } else if contains(path, "z_raw") {
        Some(Axis::Z)
    } else {
        None
    }
}

/// Chooses the value files of the X and Y axes among the paths found. The Z
/// axis is not read. A path that names no axis fails the choice.
pub fn choose_paths(paths: &Vec<String>) -> (chosen: Result<SensorPaths, UnknownPath>)
    ensures
        match chosen {
            Ok(files) => {
                &&& forall|i: int| 0 <= i < paths.len() ==> axis_named(#[trigger] paths@[i]@) is Some
                &&& (files.x@, files.y@) == chosen_paths(texts_of(paths@))
            },
            Err(unknown) => first_unknown(texts_of(paths@), unknown.index as int),
        },
{
    let ghost all = texts_of(paths@);
    let mut x = String::new();
    let mut y = String::new();
    let mut at: usize = 0;
    assert(all.take(0) =~= Seq::<Seq<char>>::empty());
    while at < paths.len()
        invariant
            at <= paths.len(),
            all == texts_of(paths@),
            forall|i: int| 0 <= i < at ==> axis_named(#[trigger] all[i]) is Some,
            (x@, y@) == chosen_paths(all.take(at as int)),
        decreases paths.len() - at,
    {
        let ghost next = all.take(at + 1);
        assert(next.drop_last() =~= all.take(at as int));
        assert(next.last() == paths@[at as int]@);
        match axis_of_path(paths[at].as_str()) {
            Some(Axis::X) => {
                x = paths[at].clone();
            },
            Some(Axis::Y) => {
                y = paths[at].clone();
            },
            Some(Axis::Z) => {},
            None => {
                return Err(UnknownPath { index: at });
            },
        }
        at = at + 1;
    }
    assert(all.take(at as int) =~= all);
    assert forall|i: int| 0 <= i < paths.len() implies axis_named(#[trigger] paths@[i]@) is Some by {
        assert(all[i] == paths@[i]@);
    }
    Ok(SensorPaths { x, y })
}

/// Cuts the line feeds off the end of a text.
pub fn trim_line_feeds(text: &str) -> (kept: &str)
    ensures
        kept@ == trimmed(text@),
{
    let mut end = text.unicode_len();
    assert(text@.subrange(0, end as int) =~= text@);
    while end > 0 && text.get_char(end - 1) == '\n'
        invariant
            end <= text@.len(),
            trimmed(text@) == trimmed(text@.subrange(0, end as int)),
        decreases end,
    {
        assert(text@.subrange(0, end as int).drop_last() =~= text@.subrange(0, end - 1));
        end = end - 1;
    }
    text.substring_char(0, end)
}

/// Reads a decimal integer that fits 32 bits.
pub fn parse_decimal(text: &str) -> (value: Option<i32>)
    ensures
        value == decimal_i32(text@),
{
    broadcast use vstd::string::group_string_axioms;
    let mut rest = text.chars();
    let ghost digits = digits_of(text@);
    let ghost shift: int;
    let negative: bool;
    let mut total: i64;
    let mut any: bool;
    let mut overflow: bool = false;
    let ghost mut done: int;
    match rest.next() {
        None => {
            return None;
        },
        Some(c) => {
            assert(c == text@[0]);
            assert(text@.skip(0).drop_first() =~= text@.skip(1));
            if c == '-' || c == '+' {
                negative = c == '-';
                total = 0;
                any = false;
                proof {
                    shift = 1;
                    done = 0;
                    assert(digits.take(0) =~= Seq::<char>::empty());
                }
            } else if '0' <= c && c <= '9' {
                negative = false;
                total = (c as u32 - '0' as u32) as i64;
                any = true;
                proof {
                    shift = 0;
                    done = 1;
                    assert(digits.take(1).drop_last() =~= Seq::<char>::empty());
                    assert(digits.take(1).last() == c);
                    assert(digits_value(digits.take(1).drop_last()) == 0);
                    assert(all_digits(digits.take(1)));
                }
            } else {
                assert(!is_digit(digits[0]));
                return None;
            }
        },
    }
    loop
        invariant
            digits == digits_of(text@),
            digits == text@.skip(shift),
            shift == 0 || shift == 1,
            shift == 1 <==> (text@[0] == '-' || text@[0] == '+'),
            text@.len() > 0,
            negative == (text@[0] == '-'),
            0 <= done <= digits.len(),
            any == (done > 0),
            rest.remaining() == digits.skip(done),
            rest.obeys_prophetic_iter_laws(),
            all_digits(digits.take(done)),
            !overflow ==> total == digits_value(digits.take(done)) && 0 <= total <= 0x8000_0000,
            overflow ==> digits_value(digits.take(done)) > 0x8000_0000,
        decreases digits.len() - done,
    {
        match rest.next() {
            None => {
                assert(digits.take(done) =~= digits);
                if !any || overflow {
                    return None;
                }
                if negative {
                    return Some((-total) as i32);
                }
                if total > 0x7fff_ffff {
                    return None;
                }
                return Some(total as i32);
            },
            Some(c) => {
                let ghost seen = digits.take(done);
                let ghost next = digits.take(done + 1);
                assert(c == digits[done]);
                assert(next.drop_last() =~= seen);
                assert(next.last() == c);
                assert(digits.skip(done).drop_first() =~= digits.skip(done + 1));
                if !('0' <= c && c <= '9') {
                    assert(!is_digit(digits[done]));
                    return None;
                }
                assert forall|i: int| 0 <= i < next.len() implies is_digit(#[trigger] next[i]) by {
                    if i < done {
                        assert(next[i] == seen[i]);
                    }
                }
                proof {
                    lemma_digits_value_grows(next);
                }
                if !overflow {
                    total = 10 * total + (c as u32 - '0' as u32) as i64;
                    if total > 0x8000_0000 {
                        overflow = true;
                    }
                }
                any = true;
                proof {
                    done = done + 1;
                }
            },
        }
    }
}

/// Reads the sample that a value file holds: the decimal integer before its
/// closing line feeds. A file that holds none counts as 0.
pub fn parse_sample(text: &str) -> (value: i32)
    ensures
        value == sample_of(text@),
{
    match parse_decimal(trim_line_feeds(text)) {
        Some(value) => value,
        None => 0,
    }
}

} // verus!
