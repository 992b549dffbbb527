use rot8::controller::{Action, Controller, Event, Pending};
use rot8::orientation::Orientation;
use rot8::policy::{KeyboardAction, KeyboardMode};

#[test]
fn controller_starts_at_the_reported_orientation() {
    let controller = Controller::new(Orientation::Inverted, KeyboardMode::Detachable, true);
    assert_eq!(controller, Controller {
        current: Orientation::Inverted,
        pending: Pending::Sample,
        mode: KeyboardMode::Detachable,
        human_normal: Orientation::RotatedLeft,
    });
    assert_eq!(controller.current_orientation(), Orientation::Inverted);
    let controller = Controller::new(Orientation::Normal, KeyboardMode::Integrated, false);
    assert_eq!(controller.human_normal, Orientation::Normal);
}

#[test]
fn same_orientation_is_a_no_op() {
    for mode in [KeyboardMode::Integrated, KeyboardMode::Detachable, KeyboardMode::Unmanaged] {
        for orientation in Orientation::all() {
            let mut controller = Controller::new(orientation, mode, false);
            let before = controller;
            assert_eq!(controller.step(Event::Sampled(orientation)), Action::Wait);
            assert_eq!(controller, before);
        }
    }
}

#[test]
fn integrated_mode_rotates_and_switches_the_keyboard() {
    let mut controller = Controller::new(Orientation::Normal, KeyboardMode::Integrated, false);
    assert_eq!(
        controller.step(Event::Sampled(Orientation::RotatedLeft)),
        Action::Rotate(Orientation::RotatedLeft, Some(KeyboardAction::Disable))
    );
    assert_eq!(controller.current, Orientation::Normal);
    assert_eq!(controller.pending, Pending::Rotation(Orientation::RotatedLeft));
    assert_eq!(controller.step(Event::Applied(true)), Action::RunHook);
    assert_eq!(controller.current, Orientation::RotatedLeft);
    assert_eq!(controller.pending, Pending::Sample);
    assert_eq!(
        controller.step(Event::Sampled(Orientation::Normal)),
        Action::Rotate(Orientation::Normal, Some(KeyboardAction::Enable))
    );
    assert_eq!(controller.step(Event::Applied(true)), Action::RunHook);
    assert_eq!(controller.current, Orientation::Normal);
}

#[test]
fn unmanaged_mode_rotates_without_keyboard_action() {
    let mut controller = Controller::new(Orientation::Normal, KeyboardMode::Unmanaged, false);
    assert_eq!(
        controller.step(Event::Sampled(Orientation::Inverted)),
        Action::Rotate(Orientation::Inverted, None)
    );
    assert_eq!(controller.step(Event::Applied(true)), Action::RunHook);
    assert_eq!(controller.current, Orientation::Inverted);
}

#[test]
fn detachable_mode_probes_before_it_rotates() {
    let mut controller = Controller::new(Orientation::Normal, KeyboardMode::Detachable, false);
    assert_eq!(controller.step(Event::Sampled(Orientation::RotatedLeft)), Action::ProbeKeyboards);
    assert_eq!(controller.pending, Pending::Probe(Orientation::RotatedLeft));
    assert_eq!(
        controller.step(Event::Probed(false)),
        Action::Rotate(Orientation::RotatedLeft, None)
    );
    assert_eq!(controller.step(Event::Applied(true)), Action::RunHook);
    assert_eq!(controller.current, Orientation::RotatedLeft);
}

#[test]
fn suppressed_rotation_leaves_the_state_unchanged() {
    let mut controller = Controller::new(Orientation::Normal, KeyboardMode::Detachable, false);
    let before = controller;
    assert_eq!(controller.step(Event::Sampled(Orientation::RotatedLeft)), Action::ProbeKeyboards);
    assert_eq!(controller.step(Event::Probed(true)), Action::Wait);
    assert_eq!(controller, before);
    // The candidate was not recorded: the same sample is looked at afresh.
    assert_eq!(controller.step(Event::Sampled(Orientation::RotatedLeft)), Action::ProbeKeyboards);
}

#[test]
fn attached_keyboard_lets_the_device_return_to_upright() {
    let mut controller = Controller::new(Orientation::RotatedLeft, KeyboardMode::Detachable, false);
    assert_eq!(controller.step(Event::Sampled(Orientation::Inverted)), Action::ProbeKeyboards);
    assert_eq!(controller.step(Event::Probed(true)), Action::Wait);
    assert_eq!(controller.current, Orientation::RotatedLeft);
    assert_eq!(controller.step(Event::Sampled(Orientation::Normal)), Action::ProbeKeyboards);
    assert_eq!(controller.step(Event::Probed(true)), Action::Rotate(Orientation::Normal, None));
    assert_eq!(controller.step(Event::Applied(true)), Action::RunHook);
    assert_eq!(controller.current, Orientation::Normal);
}

#[test]
fn failed_apply_keeps_the_previous_orientation() {
    let mut controller = Controller::new(Orientation::Normal, KeyboardMode::Integrated, false);
    let before = controller;
    assert_eq!(
        controller.step(Event::Sampled(Orientation::Inverted)),
        Action::Rotate(Orientation::Inverted, Some(KeyboardAction::Disable))
    );
    assert_eq!(controller.step(Event::Applied(false)), Action::Wait);
    assert_eq!(controller, before);
    // The next cycle tries again.
    assert_eq!(
        controller.step(Event::Sampled(Orientation::Inverted)),
        Action::Rotate(Orientation::Inverted, Some(KeyboardAction::Disable))
    );
}

#[test]
fn unexpected_event_asks_again() {
    let mut controller = Controller::new(Orientation::Normal, KeyboardMode::Detachable, false);
    let idle = controller;
    assert_eq!(controller.step(Event::Probed(true)), Action::Wait);
    assert_eq!(controller.step(Event::Applied(true)), Action::Wait);
    assert_eq!(controller, idle);

    assert_eq!(controller.step(Event::Sampled(Orientation::Inverted)), Action::ProbeKeyboards);
    let probing = controller;
    assert_eq!(controller.step(Event::Sampled(Orientation::RotatedLeft)), Action::ProbeKeyboards);
    assert_eq!(controller.step(Event::Applied(true)), Action::ProbeKeyboards);
    assert_eq!(controller, probing);

    assert_eq!(controller.step(Event::Probed(false)), Action::Rotate(Orientation::Inverted, None));
    let applying = controller;
    assert_eq!(
        controller.step(Event::Sampled(Orientation::RotatedLeft)),
        Action::Rotate(Orientation::Inverted, None)
    );
    assert_eq!(controller.step(Event::Probed(true)), Action::Rotate(Orientation::Inverted, None));
    assert_eq!(controller, applying);
}

#[test]
fn quarter_turn_hack_counts_rotated_left_as_upright() {
    let mut controller = Controller::new(Orientation::Normal, KeyboardMode::Integrated, true);
    assert_eq!(
        controller.step(Event::Sampled(Orientation::RotatedLeft)),
        Action::Rotate(Orientation::RotatedLeft, Some(KeyboardAction::Enable))
    );
    assert_eq!(controller.step(Event::Applied(true)), Action::RunHook);
    assert_eq!(
        controller.step(Event::Sampled(Orientation::Normal)),
        Action::Rotate(Orientation::Normal, Some(KeyboardAction::Disable))
    );
}

#[test]
fn settings_survive_every_step() {
    let events = [
        Event::Sampled(Orientation::Inverted),
        Event::Probed(false),
        Event::Applied(true),
        Event::Probed(true),
        Event::Sampled(Orientation::Normal),
        Event::Applied(false),
    ];
    let mut controller = Controller::new(Orientation::Normal, KeyboardMode::Detachable, true);
    for event in events {
        controller.step(event);
        assert_eq!(controller.mode, KeyboardMode::Detachable);
        assert_eq!(controller.human_normal, Orientation::RotatedLeft);
    }
}

#[test]
fn controller_classifies_against_the_orientation_last_applied() {
    let mut controller = Controller::new(Orientation::Inverted, KeyboardMode::Unmanaged, false);
    assert_eq!(controller.classify(&[false; 4]), Orientation::Inverted);
    assert_eq!(controller.classify(&[false, false, true, true]), Orientation::RotatedLeft);
    assert_eq!(controller.classify(&[true, true, true, true]), Orientation::Normal);
    // A candidate that is not yet applied is not the previous orientation.
    controller.step(Event::Sampled(Orientation::RotatedRight));
    assert_eq!(controller.classify(&[false; 4]), Orientation::Inverted);
    controller.step(Event::Applied(true));
    assert_eq!(controller.classify(&[false; 4]), Orientation::RotatedRight);
}
