//! Keyboard policy: when a rotation is held back, and what becomes of the
//! keyboard when one goes through.

use crate::orientation::Orientation;
use crate::text::same_text;
use vstd::prelude::*;

verus! {

/// How the physical keyboard relates to the device.
#[derive(Clone, Copy, Debug, PartialEq, Eq, Structural)]
pub enum KeyboardMode {
    /// The keyboard is part of the device: it is switched off while the
    /// device is held in any way but upright.
    Integrated,
    /// The keyboard can be taken off: while it is attached the rotation is
    /// locked.
    Detachable,
    /// The keyboard is left alone.
    Unmanaged,
}

/// What happens to the keyboards along with a rotation.
#[derive(Clone, Copy, Debug, PartialEq, Eq, Structural)]
pub enum KeyboardAction {
    Enable,
    Disable,
}

/// The orientation that counts as upright for the keyboard: the mounting
/// correction by a quarter turn shifts it.
pub open spec fn upright(rotate_90: bool) -> Orientation {
    if rotate_90 {
        Orientation::RotatedLeft
    } else {
        Orientation::Normal
    }
}

/// Whether a change of orientation is held back: only in detachable mode,
/// while a keyboard is attached, and unless the change leads back to upright
/// from elsewhere.
pub open spec fn suppressed(
    mode: KeyboardMode,
    attached: bool,
    old: Orientation,
    new: Orientation,
    human_normal: Orientation,
) -> bool {
    mode == KeyboardMode::Detachable && attached && (old == human_normal || new != human_normal)
}

/// What an integrated keyboard does at an orientation: it works upright only.
pub open spec fn integrated_action(new: Orientation, human_normal: Orientation) -> KeyboardAction {
    if new == human_normal {
        KeyboardAction::Enable
    } else {
        KeyboardAction::Disable
    }
}

/// The keyboard action that goes with an accepted rotation: one in integrated
/// mode, none in the other modes.
pub open spec fn action_for(mode: KeyboardMode, new: Orientation, human_normal: Orientation) -> Option<
    KeyboardAction,
> {
    if mode == KeyboardMode::Integrated {
        Some(integrated_action(new, human_normal))
    } else {
        None
    }
}

impl KeyboardMode {
    /// The word that names the mode on the command line.
    pub open spec fn word(self) -> Seq<char> {
        match self {
            KeyboardMode::Integrated => "integrated"@,
            KeyboardMode::Detachable => "detachable"@,
            KeyboardMode::Unmanaged => "none"@,
        }
    }

    /// The mode that a word names, if it names one.
    pub open spec fn named(word: Seq<char>) -> Option<KeyboardMode> {
        if word == "integrated"@ {
            Some(KeyboardMode::Integrated)
        } else if word == "detachable"@ {
            Some(KeyboardMode::Detachable)
        } else if word == "none"@ {
            Some(KeyboardMode::Unmanaged)
        } else {
            None
        }
    }

    /// Reads the mode from its word: `integrated`, `detachable` or `none`.
    pub fn from_word(word: &str) -> (mode: Option<KeyboardMode>)
        ensures
            mode == KeyboardMode::named(word@),
    {
        if same_text(word, "integrated") {
            Some(KeyboardMode::Integrated)
        } else if same_text(word, "detachable") {
            Some(KeyboardMode::Detachable)
        } else if same_text(word, "none") {
            Some(KeyboardMode::Unmanaged)
        } else {
            None
        }
    }
}

impl KeyboardAction {
    /// The token that the compositor takes for the action.
    pub open spec fn token(self) -> Seq<char> {
        match self {
            KeyboardAction::Enable => "enabled"@,
            KeyboardAction::Disable => "disabled"@,
        }
    }

    /// The token that the compositor takes for the action.
    pub fn events_token(self) -> (token: &'static str)
        ensures
            token@ == self.token(),
    {
        match self {
            KeyboardAction::Enable => "enabled",
            KeyboardAction::Disable => "disabled",
        }
    }
}

/// Every mode is read back from its own word.
pub proof fn lemma_mode_word_round_trip(mode: KeyboardMode)
    ensures
        KeyboardMode::named(mode.word()) == Some(mode),
{
    reveal_strlit("integrated");
    reveal_strlit("detachable");
    reveal_strlit("none");
    assert("integrated"@[0] == 'i');
    assert("detachable"@[0] == 'd');
    assert("none"@[0] == 'n');
}

/// The orientation that counts as upright for the keyboard.
pub fn human_normal(rotate_90: bool) -> (orientation: Orientation)
    ensures
        orientation == upright(rotate_90),
{
    if rotate_90 {
        Orientation::RotatedLeft
    } else {
        Orientation::Normal
    }
}

/// Decides whether a change from `old` to `new` is held back.
pub fn should_suppress(
    mode: KeyboardMode,
    attached: bool,
    old: Orientation,
    new: Orientation,
    human_normal: Orientation,
) -> (hold: bool)
    ensures
        hold == suppressed(mode, attached, old, new, human_normal),
{
    match mode {
        KeyboardMode::Detachable => attached && (old == human_normal || new != human_normal),
        _ => false,
    }
}

/// Decides what an integrated keyboard does once the device is at `new`.
pub fn integrated_keyboard_action(new: Orientation, human_normal: Orientation) -> (action:
    KeyboardAction)
    ensures
        action == integrated_action(new, human_normal),
{
    if new == human_normal {
        KeyboardAction::Enable
    } else {
        KeyboardAction::Disable
    }
}

/// Decides what keyboard action, if any, goes with an accepted rotation.
pub fn keyboard_action(mode: KeyboardMode, new: Orientation, human_normal: Orientation) -> (action:
    Option<KeyboardAction>)
    ensures
        action == action_for(mode, new, human_normal),
{
    match mode {
        KeyboardMode::Integrated => Some(integrated_keyboard_action(new, human_normal)),
        _ => None,
    }
}

} // verus!
