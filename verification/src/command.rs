//! The commands that carry queries and rotations to the display server and
//! the input devices. The crate only describes them; the caller runs them.

use crate::backend::Backend;
use crate::orientation::Orientation;
use crate::policy::KeyboardAction;
use crate::text::texts_of;
use vstd::prelude::*;
use vstd::string::StringExecFns;

verus! {

/// A program to run, with its arguments.
#[derive(Debug)]
pub struct Command {
    pub program: String,
    pub arguments: Vec<String>,
}

/// The characters of a [`Command`].
pub struct CommandView {
    pub program: Seq<char>,
    pub arguments: Seq<Seq<char>>,
}

impl View for Command {
    type V = CommandView;

    open spec fn view(&self) -> CommandView {
        CommandView { program: self.program@, arguments: texts_of(self.arguments@) }
    }
}

/// The views of a sequence of commands.
pub open spec fn commands_view(commands: Seq<Command>) -> Seq<CommandView> {
    Seq::new(commands.len(), |i: int| commands[i]@)
}

/// How an entry of a touch matrix is written on the command line.
pub open spec fn entry_token(entry: int) -> Seq<char>
    recommends
        -1 <= entry <= 1,
{
    if entry < 0 {
        "-1"@
    } else if entry == 0 {
        "0"@
    } else {
        "1"@
    }
}

/// The compositor command that rotates a display.
pub open spec fn sway_rotate(display: Seq<char>, orientation: Orientation) -> CommandView {
    CommandView {
        program: "swaymsg"@,
        arguments: seq!["output"@, display, "transform"@, orientation.transform()],
    }
}

/// The compositor command that switches a keyboard on or off.
pub open spec fn sway_keyboard(keyboard: Seq<char>, action: KeyboardAction) -> CommandView {
    CommandView {
        program: "swaymsg"@,
        arguments: seq!["input"@, keyboard, "events"@, action.token()],
    }
}

/// The X11 command that rotates a display.
pub open spec fn xrandr_rotate(display: Seq<char>, orientation: Orientation) -> CommandView {
    CommandView {
        program: "xrandr"@,
        arguments: seq!["--output"@, display, "--rotate"@, orientation.x11_word()],
    }
}

/// The X11 command that remaps the touchscreen to a rotated display.
pub open spec fn xinput_remap(touchscreen: Seq<char>, orientation: Orientation) -> CommandView {
    CommandView {
        program: "xinput"@,
        arguments: seq!["set-prop"@, touchscreen, "Coordinate Transformation Matrix"@]
            + Seq::new(9, |i: int| entry_token(orientation.touch_matrix()[i])),
    }
}

/// The commands that apply an orientation, in the order in which they run.
///
/// The compositor rotates the display and then, where a keyboard action goes
/// with the rotation, switches each keyboard. X11 rotates the display and
/// then remaps the touchscreen.
pub open spec fn rotation_commands(
    backend: Backend,
    orientation: Orientation,
    display: Seq<char>,
    touchscreen: Seq<char>,
    keyboards: Seq<Seq<char>>,
    action: Option<KeyboardAction>,
) -> Seq<CommandView> {
    match backend {
        Backend::Sway => seq![sway_rotate(display, orientation)] + match action {
            Some(action) => Seq::new(
                keyboards.len(),
                |i: int| sway_keyboard(keyboards[i], action),
            ),
            None => Seq::<CommandView>::empty(),
        },
        Backend::Xorg => seq![
            xrandr_rotate(display, orientation),
            xinput_remap(touchscreen, orientation),
        ],
    }
}

/// The query that makes a backend report its outputs.
pub open spec fn outputs_query_of(backend: Backend) -> CommandView {
    match backend {
        Backend::Sway => CommandView {
            program: "swaymsg"@,
            arguments: seq!["-t"@, "get_outputs"@, "--raw"@],
        },
        Backend::Xorg => CommandView { program: "xrandr"@, arguments: Seq::<Seq<char>>::empty() },
    }
}

/// The query that makes a backend report its input devices, where it has one.
pub open spec fn inputs_query_of(backend: Backend) -> Option<CommandView> {
    match backend {
        Backend::Sway => Some(
            CommandView { program: "swaymsg"@, arguments: seq!["-t"@, "get_inputs"@, "--raw"@] },
        ),
        Backend::Xorg => None,
    }
}

/// The probe that tells whether a keyboard is attached.
pub open spec fn keyboard_probe(keyboard: Seq<char>) -> CommandView {
    CommandView { program: "xinput"@, arguments: seq!["list"@, keyboard] }
}

/// The probes that tell whether keyboards are attached: one for each keyboard
/// on X11, none on the compositor.
pub open spec fn attachment_probes_of(backend: Backend, keyboards: Seq<Seq<char>>) -> Seq<
    CommandView,
> {
    match backend {
        Backend::Sway => Seq::<CommandView>::empty(),
        Backend::Xorg => Seq::new(keyboards.len(), |i: int| keyboard_probe(keyboards[i])),
    }
}

/// The name of the process that tells that a backend is running.
pub open spec fn process_of(backend: Backend) -> Seq<char> {
    match backend {
        Backend::Sway => "sway"@,
        Backend::Xorg => "Xorg"@,
    }
}

/// The probe that lists the processes of a backend.
pub open spec fn backend_probe_of(backend: Backend) -> CommandView {
    CommandView { program: "pidof"@, arguments: seq![process_of(backend)] }
}

/// The shell command that runs the rotate hook.
pub open spec fn hook_command_of(hook: Seq<char>) -> CommandView {
    CommandView { program: "/bin/sh"@, arguments: seq!["-c"@, hook] }
}

/// Writes an entry of a touch matrix as the command line takes it.
fn matrix_token(entry: i8) -> (token: String)
    requires
        -1 <= entry <= 1,
    ensures
        token@ == entry_token(entry as int),
{
    if entry < 0 {
        String::from_str("-1")
    } else if entry == 0 {
        String::from_str("0")
    } else {
        String::from_str("1")
    }
}

/// Puts a program name and its arguments together.
fn command(program: &str, arguments: Vec<String>) -> (made: Command)
    ensures
        made@ == (CommandView { program: program@, arguments: texts_of(arguments@) }),
{
    Command { program: String::from_str(program), arguments }
}

/// Builds a command with three arguments.
fn command3(program: &str, first: &str, second: &str, third: &str) -> (made: Command)
    ensures
        made@ == (CommandView { program: program@, arguments: seq![first@, second@, third@] }),
{
    let mut arguments: Vec<String> = Vec::new();
    arguments.push(String::from_str(first));
    arguments.push(String::from_str(second));
    arguments.push(String::from_str(third));
    assert(texts_of(arguments@) =~= seq![first@, second@, third@]);
    command(program, arguments)
}

/// Builds a command with four arguments.
fn command4(program: &str, first: &str, second: &str, third: &str, fourth: &str) -> (made: Command)
    ensures
        made@ == (CommandView {
            program: program@,
            arguments: seq![first@, second@, third@, fourth@],
        }),
{
    let mut arguments: Vec<String> = Vec::new();
    arguments.push(String::from_str(first));
    arguments.push(String::from_str(second));
    arguments.push(String::from_str(third));
    arguments.push(String::from_str(fourth));
    assert(texts_of(arguments@) =~= seq![first@, second@, third@, fourth@]);
    command(program, arguments)
}

/// Builds the X11 command that remaps the touchscreen.
fn remap_command(touchscreen: &str, orientation: Orientation) -> (made: Command)
    ensures
        made@ == xinput_remap(touchscreen@, orientation),
{
    let matrix = orientation.matrix();
    let mut arguments: Vec<String> = Vec::new();
    arguments.push(String::from_str("set-prop"));
    arguments.push(String::from_str(touchscreen));
    arguments.push(String::from_str("Coordinate Transformation Matrix"));
    let ghost head = seq!["set-prop"@, touchscreen@, "Coordinate Transformation Matrix"@];
    assert(texts_of(arguments@) =~= head);
    let mut at: usize = 0;
    while at < 9
        invariant
            at <= 9,
            matrix@.len() == 9,
            forall|i: int| 0 <= i < 9 ==> matrix@[i] as int == orientation.touch_matrix()[i],
            forall|i: int| 0 <= i < 9 ==> -1 <= #[trigger] matrix@[i] <= 1,
            texts_of(arguments@) == head + Seq::new(
                at as nat,
                |i: int| entry_token(orientation.touch_matrix()[i]),
            ),
        decreases 9 - at,
    {
        let ghost before = arguments@;
        let entry = matrix[at];
        assert(-1 <= matrix@[at as int] <= 1);
        arguments.push(matrix_token(entry));
        assert(texts_of(arguments@) =~= texts_of(before).push(entry_token(entry as int)));
        assert(texts_of(arguments@) =~= head + Seq::new(
            (at + 1) as nat,
            |i: int| entry_token(orientation.touch_matrix()[i]),
        ));
        at = at + 1;
    }
    command("xinput", arguments)
}

/// Lists the commands that apply an orientation, in the order in which they
/// are to run, each to be awaited before the next is started.
pub fn apply(
    backend: Backend,
    orientation: Orientation,
    display: &str,
    touchscreen: &str,
    keyboards: &Vec<String>,
    action: Option<KeyboardAction>,
) -> (commands: Vec<Command>)
    ensures
        commands_view(commands@) == rotation_commands(
            backend,
            orientation,
            display@,
            touchscreen@,
            texts_of(keyboards@),
            action,
        ),
{
    let mut commands: Vec<Command> = Vec::new();
    match backend {
        Backend::Sway => {
            commands.push(
                command4("swaymsg", "output", display, "transform", orientation.transform_label()),
            );
            let ghost head = seq![sway_rotate(display@, orientation)];
            assert(commands_view(commands@) =~= head);
            match action {
                None => {
                    assert(commands_view(commands@) =~= head + Seq::<CommandView>::empty());
                },
                Some(action) => {
                    let mut at: usize = 0;
                    while at < keyboards.len()
                        invariant
                            at <= keyboards.len(),
                            head == seq![sway_rotate(display@, orientation)],
                            commands_view(commands@) == head + Seq::new(
                                at as nat,
                                |i: int| sway_keyboard(texts_of(keyboards@)[i], action),
                            ),
                        decreases keyboards.len() - at,
                    {
                        let ghost before = commands@;
                        commands.push(
                            command4(
                                "swaymsg",
                                "input",
                                keyboards[at].as_str(),
                                "events",
                                action.events_token(),
                            ),
                        );
                        assert(commands_view(commands@) =~= commands_view(before).push(
                            sway_keyboard(keyboards@[at as int]@, action),
                        ));
                        assert(commands_view(commands@) =~= head + Seq::new(
                            (at + 1) as nat,
                            |i: int| sway_keyboard(texts_of(keyboards@)[i], action),
                        ));
                        at = at + 1;
                    }
                },
            }
        },
        Backend::Xorg => {
            commands.push(
                command4("xrandr", "--output", display, "--rotate", orientation.x11_label()),
            );
            commands.push(remap_command(touchscreen, orientation));
            assert(commands_view(commands@) =~= seq![
                xrandr_rotate(display@, orientation),
                xinput_remap(touchscreen@, orientation),
            ]);
        },
    }
    commands
}

/// Builds the query that makes a backend report its outputs.
pub fn outputs_query(backend: Backend) -> (query: Command)
    ensures
        query@ == outputs_query_of(backend),
{
    match backend {
        Backend::Sway => command3("swaymsg", "-t", "get_outputs", "--raw"),
        Backend::Xorg => {
            let none: Vec<String> = Vec::new();
            assert(texts_of(none@) =~= Seq::<Seq<char>>::empty());
            command("xrandr", none)
        },
    }
}

/// Builds the query that makes a backend report its input devices. X11 has
/// none: keyboards are not discovered there.
pub fn inputs_query(backend: Backend) -> (query: Option<Command>)
    ensures
        match query {
            Some(command) => inputs_query_of(backend) == Some(command@),
            None => inputs_query_of(backend) is None,
        },
{
    match backend {
        Backend::Sway => Some(command3("swaymsg", "-t", "get_inputs", "--raw")),
        Backend::Xorg => None,
    }
}

/// Lists the probes that tell whether a keyboard is attached, one for each
/// keyboard. The compositor offers no probe.
pub fn attachment_probes(backend: Backend, keyboards: &Vec<String>) -> (probes: Vec<Command>)
    ensures
        commands_view(probes@) == attachment_probes_of(backend, texts_of(keyboards@)),
{
    let mut probes: Vec<Command> = Vec::new();
    match backend {
        Backend::Sway => {
            assert(commands_view(probes@) =~= Seq::<CommandView>::empty());
        },
        Backend::Xorg => {
            let mut at: usize = 0;
            assert(commands_view(probes@) =~= Seq::new(
                0,
                |i: int| keyboard_probe(texts_of(keyboards@)[i]),
            ));
            while at < keyboards.len()
                invariant
                    at <= keyboards.len(),
                    commands_view(probes@) == Seq::new(
                        at as nat,
                        |i: int| keyboard_probe(texts_of(keyboards@)[i]),
                    ),
                decreases keyboards.len() - at,
            {
                let ghost before = probes@;
                let mut arguments: Vec<String> = Vec::new();
                arguments.push(String::from_str("list"));
                arguments.push(keyboards[at].clone());
                assert(texts_of(arguments@) =~= seq!["list"@, keyboards@[at as int]@]);
                probes.push(command("xinput", arguments));
                assert(commands_view(probes@) =~= commands_view(before).push(
                    keyboard_probe(keyboards@[at as int]@),
                ));
                assert(commands_view(probes@) =~= Seq::new(
                    (at + 1) as nat,
                    |i: int| keyboard_probe(texts_of(keyboards@)[i]),
                ));
                at = at + 1;
            }
        },
    }
    probes
}

/// Builds the probe that lists the processes of a backend.
pub fn backend_probe(backend: Backend) -> (probe: Command)
    ensures
        probe@ == backend_probe_of(backend),
{
    let mut arguments: Vec<String> = Vec::new();
    match backend {
        Backend::Sway => arguments.push(String::from_str("sway")),
        Backend::Xorg => arguments.push(String::from_str("Xorg")),
    }
    assert(texts_of(arguments@) =~= seq![process_of(backend)]);
    command("pidof", arguments)
}

/// Builds the shell command that runs the rotate hook.
pub fn hook_command(hook: &str) -> (made: Command)
    ensures
        made@ == hook_command_of(hook@),
{
    let mut arguments: Vec<String> = Vec::new();
    arguments.push(String::from_str("-c"));
    arguments.push(String::from_str(hook));
    assert(texts_of(arguments@) =~= seq!["-c"@, hook@]);
    command("/bin/sh", arguments)
}

} // verus!
