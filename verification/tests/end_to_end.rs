use rot8::backend::{detect, Backend};
use rot8::classifier::correct_axes;
use rot8::command::{apply, Command};
use rot8::controller::{Action, Controller, Event};
use rot8::inputs::{get_keyboards, keyboards_attached, next_probe};
use rot8::orientation::Orientation;
use rot8::policy::KeyboardMode;
use rot8::rotation::{get_window_server_rotation_state, RotationReport};
use rot8::sensor::{parse_sample, RawSample};

fn within(sample: RawSample, scale: Option<f32>, threshold: f32) -> [bool; 4] {
    let vector = correct_axes(sample, false, false);
    let (x, y) = match scale {
        Some(scale) => (vector.x as f32 * scale / 10f32, vector.y as f32 * scale / 10f32),
        None => (vector.x as f32, vector.y as f32),
    };
    let mut flags = [false; 4];
    for (i, orientation) in Orientation::all().iter().enumerate() {
        let (rx, ry) = orientation.reference_vector();
        flags[i] = (x - rx as f32).powf(2.0) + (y - ry as f32).powf(2.0) < threshold;
    }
    flags
}

fn words(command: &Command) -> Vec<String> {
    let mut all = vec![command.program.clone()];
    all.extend(command.arguments.iter().cloned());
    all
}

#[test]
fn xorg_session_rotates_left() {
    let backend = detect("", "812\n").unwrap();
    assert_eq!(backend, Backend::Xorg);

    let report = RotationReport::Xorg(
        "Screen 0: minimum 320 x 200, current 1920 x 1080, maximum 16384 x 16384\neDP-1 connected primary 1920x1080+0+0 (normal left inverted right x axis y axis) 294mm x 165mm\n   1920x1080     60.00*+\n"
            .to_string(),
    );
    let label = get_window_server_rotation_state("eDP-1", &report).unwrap();
    assert_eq!(label, "normal");
    let initial = Orientation::from_label(backend, &label).unwrap();
    assert_eq!(initial, Orientation::Normal);

    let keyboards = get_keyboards(backend, "").unwrap();
    assert!(keyboards.is_empty());

    let mut controller = Controller::new(initial, KeyboardMode::Integrated, false);
    let sample = RawSample { x: parse_sample("-1000\n"), y: parse_sample("12\n") };
    let candidate = controller.classify(&within(sample, Some(0.01), 0.5));
    assert_eq!(candidate, Orientation::RotatedLeft);

    let action = controller.step(Event::Sampled(candidate));
    let (orientation, keyboard) = match action {
        Action::Rotate(orientation, keyboard) => (orientation, keyboard),
        other => panic!("unexpected action {:?}", other),
    };
    let commands = apply(backend, orientation, "eDP-1", "ELAN0732:00 04F3:22E1", &keyboards, keyboard);
    assert_eq!(commands.len(), 2);
    assert_eq!(words(&commands[0]), vec!["xrandr", "--output", "eDP-1", "--rotate", "left"]);
    assert_eq!(words(&commands[1]), vec![
        "xinput",
        "set-prop",
        "ELAN0732:00 04F3:22E1",
        "Coordinate Transformation Matrix",
        "0",
        "1",
        "0",
        "-1",
        "0",
        "1",
        "0",
        "0",
        "1",
    ]);
    assert_eq!(controller.step(Event::Applied(true)), Action::RunHook);
    assert_eq!(controller.current_orientation(), Orientation::RotatedLeft);

    // The same reading on the next cycle changes nothing, and neither does
    // one that is close to no reference vector.
    let candidate = controller.classify(&within(sample, Some(0.01), 0.5));
    assert_eq!(controller.step(Event::Sampled(candidate)), Action::Wait);
    let flat = RawSample { x: 0, y: 0 };
    let candidate = controller.classify(&within(flat, Some(0.01), 0.5));
    assert_eq!(candidate, Orientation::RotatedLeft);
    assert_eq!(controller.step(Event::Sampled(candidate)), Action::Wait);
}

#[test]
fn xorg_session_with_attached_keyboard_stays_upright() {
    let backend = Backend::Xorg;
    let mut controller = Controller::new(Orientation::Normal, KeyboardMode::Detachable, false);
    let sample = RawSample { x: 0, y: 1 };
    let candidate = controller.classify(&within(sample, None, 0.5));
    assert_eq!(candidate, Orientation::Inverted);
    assert_eq!(controller.step(Event::Sampled(candidate)), Action::ProbeKeyboards);
    let answers = [false, true, true];
    let mut made = Vec::new();
    while let Some(index) = next_probe(backend, answers.len(), &made) {
        made.push(answers[index]);
    }
    assert_eq!(made, vec![false, true]);
    let attached = keyboards_attached(backend, &made);
    assert_eq!(controller.step(Event::Probed(attached)), Action::Wait);
    assert_eq!(controller.current_orientation(), Orientation::Normal);
}

#[test]
fn sway_session_switches_the_keyboard_off() {
    let backend = detect("431\n", "").unwrap();
    let report = RotationReport::Sway(vec![rot8::rotation::SwayOutput {
        name: "eDP-1".to_string(),
        transform: "normal".to_string(),
    }]);
    let label = get_window_server_rotation_state("eDP-1", &report).unwrap();
    let initial = Orientation::from_label(backend, &label).unwrap();
    let keyboards =
        get_keyboards(backend, r#"[{"type": "keyboard", "identifier": "1:1:kbd"}]"#).unwrap();
    let mut controller = Controller::new(initial, KeyboardMode::Integrated, false);
    let candidate = controller.classify(&within(RawSample { x: 0, y: 1 }, None, 0.5));
    let action = controller.step(Event::Sampled(candidate));
    let (orientation, keyboard) = match action {
        Action::Rotate(orientation, keyboard) => (orientation, keyboard),
        other => panic!("unexpected action {:?}", other),
    };
    let commands = apply(backend, orientation, "eDP-1", "", &keyboards, keyboard);
    assert_eq!(commands.len(), 2);
    assert_eq!(words(&commands[0]), vec!["swaymsg", "output", "eDP-1", "transform", "180"]);
    assert_eq!(words(&commands[1]), vec![
        "swaymsg",
        "input",
        "1:1:kbd",
        "events",
        "disabled"
    ]);
}
