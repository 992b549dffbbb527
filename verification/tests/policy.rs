use rot8::orientation::Orientation;
use rot8::policy::{
    human_normal, integrated_keyboard_action, keyboard_action, should_suppress, KeyboardAction,
    KeyboardMode,
};

#[test]
fn detachable_locks_at_normal_while_attached() {
    assert!(should_suppress(
        KeyboardMode::Detachable,
        true,
        Orientation::Normal,
        Orientation::RotatedLeft,
        Orientation::Normal
    ));
}

#[test]
fn detachable_always_allows_the_return_to_normal() {
    assert!(!should_suppress(
        KeyboardMode::Detachable,
        true,
        Orientation::RotatedLeft,
        Orientation::Normal,
        Orientation::Normal
    ));
}

#[test]
fn detachable_holds_a_turn_between_two_other_orientations() {
    assert!(should_suppress(
        KeyboardMode::Detachable,
        true,
        Orientation::RotatedLeft,
        Orientation::Inverted,
        Orientation::Normal
    ));
}

#[test]
fn detachable_rotates_freely_without_a_keyboard() {
    for old in Orientation::all() {
        for new in Orientation::all() {
            for upright in Orientation::all() {
                assert!(!should_suppress(KeyboardMode::Detachable, false, old, new, upright));
            }
        }
    }
}

#[test]
fn other_modes_never_suppress() {
    for mode in [KeyboardMode::Integrated, KeyboardMode::Unmanaged] {
        for attached in [false, true] {
            for old in Orientation::all() {
                for new in Orientation::all() {
                    assert!(!should_suppress(mode, attached, old, new, Orientation::Normal));
                }
            }
        }
    }
}

#[test]
fn suppression_follows_its_formula() {
    for attached in [false, true] {
        for old in Orientation::all() {
            for new in Orientation::all() {
                for upright in Orientation::all() {
                    assert_eq!(
                        should_suppress(KeyboardMode::Detachable, attached, old, new, upright),
                        attached && (old == upright || new != upright)
                    );
                }
            }
        }
    }
}

#[test]
fn integrated_keyboard_is_disabled_when_rotated() {
    assert_eq!(
        integrated_keyboard_action(Orientation::RotatedLeft, Orientation::Normal),
        KeyboardAction::Disable
    );
}

#[test]
fn integrated_keyboard_is_enabled_when_upright() {
    assert_eq!(
        integrated_keyboard_action(Orientation::Normal, Orientation::Normal),
        KeyboardAction::Enable
    );
    assert_eq!(
        integrated_keyboard_action(Orientation::RotatedLeft, Orientation::RotatedLeft),
        KeyboardAction::Enable
    );
    assert_eq!(
        integrated_keyboard_action(Orientation::Normal, Orientation::RotatedLeft),
        KeyboardAction::Disable
    );
}

#[test]
fn only_integrated_mode_acts_on_the_keyboard() {
    assert_eq!(
        keyboard_action(KeyboardMode::Integrated, Orientation::Inverted, Orientation::Normal),
        Some(KeyboardAction::Disable)
    );
    assert_eq!(
        keyboard_action(KeyboardMode::Integrated, Orientation::Normal, Orientation::Normal),
        Some(KeyboardAction::Enable)
    );
    assert_eq!(
        keyboard_action(KeyboardMode::Detachable, Orientation::Inverted, Orientation::Normal),
        None
    );
    assert_eq!(
        keyboard_action(KeyboardMode::Unmanaged, Orientation::Normal, Orientation::Normal),
        None
    );
}

#[test]
fn quarter_turn_hack_shifts_upright() {
    assert_eq!(human_normal(false), Orientation::Normal);
    assert_eq!(human_normal(true), Orientation::RotatedLeft);
}

#[test]
fn keyboard_mode_words() {
    assert_eq!(KeyboardMode::from_word("integrated"), Some(KeyboardMode::Integrated));
    assert_eq!(KeyboardMode::from_word("detachable"), Some(KeyboardMode::Detachable));
    assert_eq!(KeyboardMode::from_word("none"), Some(KeyboardMode::Unmanaged));
    assert_eq!(KeyboardMode::from_word("Integrated"), None);
    assert_eq!(KeyboardMode::from_word("none "), None);
    assert_eq!(KeyboardMode::from_word(""), None);
}

#[test]
fn keyboard_action_tokens() {
    assert_eq!(KeyboardAction::Enable.events_token(), "enabled");
    assert_eq!(KeyboardAction::Disable.events_token(), "disabled");
}
