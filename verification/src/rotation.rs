//! Reading the rotation that the display server reports for a display.

use crate::pattern::{compiles, escape, escaped, first_group, search};
use crate::text::{lemma_lines_partition, lines_of, same_text, split_lines, views_of};
use vstd::prelude::*;
use vstd::string::StringExecFns;
use vstd::string::StrSliceExecFns;

verus! {

/// One output of the compositor, as its outputs query lists it.
#[derive(Debug)]
pub struct SwayOutput {
    pub name: String,
    pub transform: String,
}

/// What a backend answered when asked for its outputs.
#[derive(Debug)]
pub enum RotationReport {
    /// The decoded output list of `swaymsg -t get_outputs`.
    Sway(Vec<SwayOutput>),
    /// The text that `xrandr` printed.
    Xorg(String),
}

/// Why the rotation of a display could not be read.
#[derive(Clone, Copy, Debug, PartialEq, Eq, Structural)]
pub enum RotationError {
    /// The compositor lists no output of that name.
    MissingFromSway,
    /// No line of the X11 report describes a connected output of that name.
    MissingFromXrandr,
    /// The pattern made for the display name was not accepted.
    PatternRejected,
}

/// The pattern that a line of the X11 report must match to describe the
/// display: the line opens with the display's name and `connected`; then
/// come any number of fields, none included, as few as will do; then an
/// optional rotation word right before the list of possible rotations.
/// Nothing is asked of what follows the list.
pub open spec fn line_pattern(display: Seq<char>) -> Seq<char> {
    "^"@ + escaped(display)
        + " connected (?:.+? )*?(normal |inverted |left |right )?\\(normal left inverted right x axis y axis\\)"@
}

/// The rotation word that a matching line stands for: `normal` where the line
/// names none, else the captured token without its closing space.
pub open spec fn word_of(group: Option<Seq<char>>) -> Seq<char> {
    match group {
        None => "normal"@,
        Some(token) => if token.len() > 0 && token.last() == ' ' {
            token.drop_last()
        } else {
            token
        },
    }
}

/// What the first matching line of a report captured, if any line matches.
pub open spec fn first_hit(pattern: Seq<char>, lines: Seq<Seq<char>>) -> Option<
    Option<Seq<char>>,
>
    decreases lines.len(),
{
    if lines.len() == 0 {
        None
    } else if first_group(pattern, lines[0]) is Some {
        first_group(pattern, lines[0])
    } else {
        first_hit(pattern, lines.drop_first())
    }
}

/// The rotation that an X11 report gives for a display.
pub open spec fn xorg_rotation(display: Seq<char>, report: Seq<char>) -> Result<
    Seq<char>,
    RotationError,
> {
    let pattern = line_pattern(display);
    if !compiles(pattern) {
        Err(RotationError::PatternRejected)
    } else {
        match first_hit(pattern, lines_of(report)) {
            Some(group) => Ok(word_of(group)),
            None => Err(RotationError::MissingFromXrandr),
        }
    }
}

/// The transform of the first listed output that bears the display's name.
pub open spec fn sway_rotation(display: Seq<char>, outputs: Seq<SwayOutput>) -> Result<
    Seq<char>,
    RotationError,
>
    decreases outputs.len(),
{
    if outputs.len() == 0 {
        Err(RotationError::MissingFromSway)
    } else if outputs[0].name@ == display {
        Ok(outputs[0].transform@)
    } else {
        sway_rotation(display, outputs.drop_first())
    }
}

/// The rotation that a report gives for a display.
pub open spec fn reported_rotation(display: Seq<char>, report: RotationReport) -> Result<
    Seq<char>,
    RotationError,
> {
    match report {
        RotationReport::Sway(outputs) => sway_rotation(display, outputs@),
        RotationReport::Xorg(text) => xorg_rotation(display, text@),
    }
}

/// The characters of a rotation label, or the error in its place.
pub open spec fn label_view(outcome: Result<String, RotationError>) -> Result<
    Seq<char>,
    RotationError,
> {
    match outcome {
        Ok(label) => Ok(label@),
        Err(error) => Err(error),
    }
}

/// The characters of an optional text.
pub open spec fn token_view(token: Option<String>) -> Option<Seq<char>> {
    match token {
        Some(text) => Some(text@),
        None => None,
    }
}

impl RotationError {
    /// The message shown when the program gives up on a display.
    pub open spec fn message_of(self, display: Seq<char>) -> Seq<char> {
        match self {
            RotationError::MissingFromSway => "Unable to determine rotation state: display "@
                + display + " not found in 'swaymsg -t get_outputs'"@,
            RotationError::MissingFromXrandr => "Unable to determine rotation state: display "@
                + display + " not found in xrandr output"@,
            RotationError::PatternRejected => "Unable to determine rotation state: display "@
                + display + " cannot be searched for in xrandr output"@,
        }
    }

    /// The message shown when the program gives up on a display.
    pub fn message(&self, display: &str) -> (text: String)
        ensures
            text@ == self.message_of(display@),
    {
        let head = String::from_str("Unable to determine rotation state: display ").concat(
            display,
        );
        match self {
            RotationError::MissingFromSway => head.concat(
                " not found in 'swaymsg -t get_outputs'",
            ),
            RotationError::MissingFromXrandr => head.concat(" not found in xrandr output"),
            RotationError::PatternRejected => head.concat(
                " cannot be searched for in xrandr output",
            ),
        }
    }
}

/// Builds the pattern that picks the display's line out of an X11 report.
pub fn display_pattern(display: &str) -> (pattern: String)
    ensures
        pattern@ == line_pattern(display@),
{
    let quoted = escape(display);
    String::from_str("^").concat(quoted.as_str()).concat(
        " connected (?:.+? )*?(normal |inverted |left |right )?\\(normal left inverted right x axis y axis\\)",
    )
}

/// Turns what a matching line captured into the rotation word it stands for.
pub fn rotation_word(group: &Option<String>) -> (word: String)
    ensures
        word@ == word_of(token_view(*group)),
{
    match group {
        None => String::from_str("normal"),
        Some(token) => {
            let text = token.as_str();
            let length = text.unicode_len();
            if length > 0 && text.get_char(length - 1) == ' ' {
                let kept = text.substring_char(0, length - 1);
                assert(kept@ =~= text@.drop_last());
                String::from_str(kept)
            } else {
                token.clone()
            }
        },
    }
}

/// Finds the rotation of a display among the outputs that the compositor
/// listed.
pub fn sway_rotation_state(display: &str, outputs: &Vec<SwayOutput>) -> (found: Result<
    String,
    RotationError,
>)
    ensures
        label_view(found) == sway_rotation(display@, outputs@),
{
    let mut at: usize = 0;
    assert(outputs@.skip(0) =~= outputs@);
    while at < outputs.len()
        invariant
            at <= outputs.len(),
            sway_rotation(display@, outputs@) == sway_rotation(display@, outputs@.skip(at as int)),
        decreases outputs.len() - at,
    {
        let ghost rest = outputs@.skip(at as int);
        assert(rest[0] == outputs@[at as int]);
        assert(rest.drop_first() =~= outputs@.skip(at + 1));
        if same_text(outputs[at].name.as_str(), display) {
            return Ok(outputs[at].transform.clone());
        }
        at = at + 1;
    }
    assert(outputs@.skip(at as int).len() == 0);
    Err(RotationError::MissingFromSway)
}

/// Finds the rotation of a display in the text that `xrandr` printed.
pub fn xorg_rotation_state(display: &str, report: &str) -> (found: Result<String, RotationError>)
    ensures
        label_view(found) == xorg_rotation(display@, report@),
{
    let pattern = display_pattern(display);
    let lines = split_lines(report);
    proof {
        lemma_lines_partition(report@);
    }
    let ghost all = lines_of(report@);
    let mut at: usize = 0;
    assert(all.skip(0) =~= all);
    while at < lines.len()
        invariant
            at <= lines.len(),
            pattern@ == line_pattern(display@),
            all == lines_of(report@),
            views_of(lines@) == all,
            all.len() >= 1,
            at > 0 ==> compiles(pattern@),
            first_hit(pattern@, all) == first_hit(pattern@, all.skip(at as int)),
        decreases lines.len() - at,
    {
        let ghost rest = all.skip(at as int);
        assert(rest[0] == lines@[at as int]@);
        assert(rest.drop_first() =~= all.skip(at + 1));
        match search(pattern.as_str(), lines[at]) {
            Err(_) => {
                return Err(RotationError::PatternRejected);
            },
            Ok(Some(group)) => {
                return Ok(rotation_word(&group));
            },
            Ok(None) => {},
        }
        at = at + 1;
    }
    assert(all.skip(at as int).len() == 0);
    Err(RotationError::MissingFromXrandr)
}

/// Reads the rotation that the display server reports for a display.
///
/// For the compositor this is the transform label of the first output of
/// that name; for X11 it is the rotation word of the first line of the report
/// that describes the display as connected, `normal` where the line names no
/// rotation.
pub fn get_window_server_rotation_state(display: &str, report: &RotationReport) -> (found: Result<
    String,
    RotationError,
>)
    ensures
        label_view(found) == reported_rotation(display@, *report),
{
    match report {
        RotationReport::Sway(outputs) => sway_rotation_state(display, outputs),
        RotationReport::Xorg(text) => xorg_rotation_state(display, text.as_str()),
    }
}

} // verus!
