//! Keyboard discovery and the attachment probe.

use crate::backend::Backend;
use crate::text::{same_text, texts_of};
use vstd::prelude::*;

verus! {

/// The error of the `serde_json` crate, carried through unread.
#[verifier::external_type_specification]
#[verifier::external_body]
pub struct ExJsonError(serde_json::Error);

/// What the logic reads of one entry of the compositor's input list.
#[derive(Debug)]
pub struct InputDevice {
    /// The entry's `type`, where it is a JSON string.
    pub kind: Option<String>,
    /// The entry's `identifier`, where it is a JSON string.
    pub identifier: Option<String>,
}

/// The characters held by an [`InputDevice`].
pub struct InputDeviceView {
    pub kind: Option<Seq<char>>,
    pub identifier: Option<Seq<char>>,
}

impl View for InputDevice {
    type V = InputDeviceView;

    open spec fn view(&self) -> InputDeviceView {
        InputDeviceView {
            kind: match self.kind {
                Some(kind) => Some(kind@),
                None => None,
            },
            identifier: match self.identifier {
                Some(identifier) => Some(identifier@),
                None => None,
            },
        }
    }
}

/// Why the keyboards could not be listed.
#[derive(Clone, Copy, Debug, PartialEq, Eq, Structural)]
pub enum KeyboardsError {
    /// The decoder rejects the report.
    Undecodable,
    /// An entry of the input list has no `type` that is a string.
    UntypedDevice,
    /// An entry of type `keyboard` has no `identifier` that is a string.
    UnnamedKeyboard,
}

/// The entries of the compositor's input list, as `serde_json` decodes them:
/// `None` for a text that the decoder rejects, else for each element of the
/// array its `type` and its `identifier`, each where it is a string.
pub uninterp spec fn listed_inputs(report: Seq<char>) -> Option<Seq<InputDeviceView>>;

/// The views of a sequence of devices.
pub open spec fn devices_view(devices: Seq<InputDevice>) -> Seq<InputDeviceView> {
    Seq::new(devices.len(), |i: int| devices[i]@)
}

/// Decodes the compositor's input list with `serde_json::from_str`, reading
/// each element's `type` and `identifier` with `Value::as_str`. Trusted: the
/// call fails exactly on the texts that the decoder rejects, and its result
/// depends on the text alone.
#[verifier::external_body]
pub(crate) fn decode_inputs(report: &str) -> (decoded: Result<Vec<InputDevice>, serde_json::Error>)
    ensures
        decoded is Ok <==> listed_inputs(report@) is Some,
        decoded matches Ok(devices) ==> listed_inputs(report@) == Some(devices_view(devices@)),
{
    let values: Vec<serde_json::Value> = serde_json::from_str(report)?;
    Ok(
        values.iter().map(
            |value|
                InputDevice {
                    kind: value["type"].as_str().map(|kind| kind.to_owned()),
                    identifier: value["identifier"].as_str().map(|name| name.to_owned()),
                },
        ).collect(),
    )
}

/// Whether a device is a keyboard.
pub open spec fn is_keyboard(device: InputDeviceView) -> bool {
    device.kind == Some("keyboard"@)
}

/// What is wrong with an entry of the input list, if anything: it has no
/// type, or it is a keyboard without an identifier.
pub open spec fn fault_of(device: InputDeviceView) -> Option<KeyboardsError> {
    if device.kind is None {
        Some(KeyboardsError::UntypedDevice)
    } else if is_keyboard(device) && device.identifier is None {
        Some(KeyboardsError::UnnamedKeyboard)
    } else {
        None
    }
}

/// The keyboards of an input list: the identifiers of the entries of type
/// `keyboard`, in list order. Where an entry is at fault the list gives none,
/// and the first such entry says why.
pub open spec fn keyboards_among(devices: Seq<InputDeviceView>) -> Result<
    Seq<Seq<char>>,
    KeyboardsError,
>
    decreases devices.len(),
{
    if devices.len() == 0 {
        Ok(Seq::<Seq<char>>::empty())
    } else {
        match keyboards_among(devices.drop_last()) {
            Err(error) => Err(error),
            Ok(found) => match fault_of(devices.last()) {
                Some(error) => Err(error),
                None => if is_keyboard(devices.last()) {
                    Ok(found.push(devices.last().identifier->0))
                } else {
                    Ok(found)
                },
            },
        }
    }
}

/// The keyboards that a backend discovers from its input report: none on X11,
/// where discovery is not offered, and on the compositor those of the decoded
/// list.
pub open spec fn keyboards_listed(backend: Backend, report: Seq<char>) -> Result<
    Seq<Seq<char>>,
    KeyboardsError,
> {
    match backend {
        Backend::Xorg => Ok(Seq::<Seq<char>>::empty()),
        Backend::Sway => match listed_inputs(report) {
            None => Err(KeyboardsError::Undecodable),
            Some(devices) => keyboards_among(devices),
        },
    }
}

/// The characters of a list of identifiers, or the error in its place.
pub open spec fn ids_view(outcome: Result<Vec<String>, KeyboardsError>) -> Result<
    Seq<Seq<char>>,
    KeyboardsError,
> {
    match outcome {
        Ok(ids) => Ok(texts_of(ids@)),
        Err(error) => Err(error),
    }
}

/// A list gives its keyboards exactly where no entry is at fault, and fails
/// with the fault of the first entry that has one.
pub proof fn lemma_first_fault_decides(devices: Seq<InputDeviceView>)
    ensures
        keyboards_among(devices) is Ok <==> forall|i: int|
            0 <= i < devices.len() ==> fault_of(#[trigger] devices[i]) is None,
        forall|index: int|
            0 <= index < devices.len() && fault_of(devices[index]) is Some && (forall|i: int|
                0 <= i < index ==> fault_of(#[trigger] devices[i]) is None) ==> keyboards_among(
                devices,
            ) == Err::<Seq<Seq<char>>, KeyboardsError>(fault_of(devices[index])->0),
    decreases devices.len(),
{
    if devices.len() > 0 {
        let head = devices.drop_last();
        lemma_first_fault_decides(head);
        assert forall|i: int| 0 <= i < head.len() implies head[i] == devices[i] by {}
        if keyboards_among(head) is Ok {
            assert forall|i: int| 0 <= i < head.len() implies fault_of(#[trigger] devices[i])
                is None by {
                assert(fault_of(head[i]) is None);
            }
        } else {
            let bad = choose|i: int| 0 <= i < head.len() && fault_of(#[trigger] head[i]) is Some;
            assert(fault_of(devices[bad]) is Some);
        }
        assert forall|index: int|
            0 <= index < devices.len() && fault_of(devices[index]) is Some && (forall|i: int|
                0 <= i < index ==> fault_of(#[trigger] devices[i]) is None) implies keyboards_among(
            devices,
        ) == Err::<Seq<Seq<char>>, KeyboardsError>(fault_of(devices[index])->0) by {
            if index < head.len() {
                assert(fault_of(head[index]) is Some);
                assert forall|i: int| 0 <= i < index implies fault_of(#[trigger] head[i])
                    is None by {
                    assert(fault_of(devices[i]) is None);
                }
            } else {
                assert forall|i: int| 0 <= i < head.len() implies fault_of(#[trigger] head[i])
                    is None by {
                    assert(fault_of(devices[i]) is None);
                }
            }
        }
    }
}

/// Picks the keyboards out of a decoded input list.
pub fn keyboard_identifiers(devices: &Vec<InputDevice>) -> (found: Result<
    Vec<String>,
    KeyboardsError,
>)
    ensures
        ids_view(found) == keyboards_among(devices_view(devices@)),
{
    let ghost all = devices_view(devices@);
    let mut ids: Vec<String> = Vec::new();
    let mut at: usize = 0;
    assert(texts_of(ids@) =~= Seq::<Seq<char>>::empty());
    assert(all.take(0) =~= Seq::<InputDeviceView>::empty());
    while at < devices.len()
        invariant
            at <= devices.len(),
            all == devices_view(devices@),
            keyboards_among(all.take(at as int)) == Ok::<Seq<Seq<char>>, KeyboardsError>(
                texts_of(ids@),
            ),
        decreases devices.len() - at,
    {
        let ghost next = all.take(at + 1);
        assert(next.drop_last() =~= all.take(at as int));
        assert(next.last() == devices@[at as int]@);
        match &devices[at].kind {
            None => {
                proof {
                    lemma_failure_stays(all, at + 1);
                }
                return Err(KeyboardsError::UntypedDevice);
            },
            Some(kind) => {
                if same_text(kind.as_str(), "keyboard") {
                    match &devices[at].identifier {
                        None => {
                            proof {
                                lemma_failure_stays(all, at + 1);
                            }
                            return Err(KeyboardsError::UnnamedKeyboard);
                        },
                        Some(identifier) => {
                            let ghost before = ids@;
                            ids.push(identifier.clone());
                            assert(texts_of(ids@) =~= texts_of(before).push(identifier@));
                        },
                    }
                }
            },
        }
        at = at + 1;
    }
    assert(all.take(at as int) =~= all);
    Ok(ids)
}

/// A list whose opening entries fail fails as they do.
proof fn lemma_failure_stays(devices: Seq<InputDeviceView>, count: int)
    requires
        0 <= count <= devices.len(),
        keyboards_among(devices.take(count)) is Err,
    ensures
        keyboards_among(devices) == keyboards_among(devices.take(count)),
    decreases devices.len() - count,
{
    if count < devices.len() {
        let longer = devices.take(count + 1);
        assert(longer.drop_last() =~= devices.take(count));
        lemma_failure_stays(devices, count + 1);
    } else {
        assert(devices.take(count) =~= devices);
    }
}

/// Lists the keyboards that a backend discovers.
///
/// The compositor reports its input devices as a JSON array; the keyboards
/// are the entries of type `keyboard`. X11 offers no discovery: the list is
/// empty, whatever the report holds.
pub fn get_keyboards(backend: Backend, report: &str) -> (found: Result<Vec<String>, KeyboardsError>)
    ensures
        ids_view(found) == keyboards_listed(backend, report@),
{
    match backend {
        Backend::Xorg => {
            let none: Vec<String> = Vec::new();
            assert(texts_of(none@) =~= Seq::<Seq<char>>::empty());
            Ok(none)
        },
        Backend::Sway => match decode_inputs(report) {
            Err(_) => Err(KeyboardsError::Undecodable),
            Ok(devices) => keyboard_identifiers(&devices),
        },
    }
}

/// Whether a keyboard counts as attached: on X11, where some probed keyboard
/// answered; never on the compositor, which offers no probe.
pub open spec fn attached(backend: Backend, answers: Seq<bool>) -> bool {
    backend == Backend::Xorg && exists|i: int| 0 <= i < answers.len() && answers[i]
}

/// The keyboard to probe next, given the answers so far: on X11 the next one
/// in list order, as long as no keyboard has answered and keyboards remain;
/// none otherwise. Probing ends with the first keyboard that answers.
pub open spec fn probe_due(backend: Backend, keyboards: int, answers: Seq<bool>) -> Option<int> {
    if backend == Backend::Xorg && answers.len() < keyboards && !attached(backend, answers) {
        Some(answers.len() as int)
    } else {
        None
    }
}

/// Decides from the probe answers, one for each keyboard probed so far in
/// list order, whether a keyboard is attached.
pub fn keyboards_attached(backend: Backend, answers: &Vec<bool>) -> (any: bool)
    ensures
        any == attached(backend, answers@),
{
    match backend {
        Backend::Sway => false,
        Backend::Xorg => {
            let mut at: usize = 0;
            while at < answers.len()
                invariant
                    backend == Backend::Xorg,
                    at <= answers.len(),
                    forall|i: int| 0 <= i < at ==> !answers@[i],
                decreases answers.len() - at,
            {
                if answers[at] {
                    return true;
                }
                at = at + 1;
            }
            false
        },
    }
}

/// Decides which keyboard is probed next, if any: `keyboards` is the length
/// of the keyboard list, `answers` holds the answers of the probes made so
/// far, in list order.
pub fn next_probe(backend: Backend, keyboards: usize, answers: &Vec<bool>) -> (next: Option<usize>)
    ensures
        match next {
            Some(index) => probe_due(backend, keyboards as int, answers@) == Some(index as int),
            None => probe_due(backend, keyboards as int, answers@) is None,
        },
{
    match backend {
        Backend::Sway => None,
        Backend::Xorg => {
            if answers.len() < keyboards && !keyboards_attached(backend, answers) {
                Some(answers.len())
            } else {
                None
            }
        },
    }
}

/// Ending the probes at the first answer loses nothing: once no probe is due,
/// the answers so far decide attachment as the answers of all keyboards
/// would.
pub proof fn lemma_early_stop_loses_nothing(backend: Backend, all: Seq<bool>, made: int)
    requires
        0 <= made <= all.len(),
        probe_due(backend, all.len() as int, all.take(made)) is None,
    ensures
        attached(backend, all.take(made)) == attached(backend, all),
{
    let so_far = all.take(made);
    if made == all.len() {
        assert(so_far =~= all);
    } else if backend == Backend::Xorg {
        let hit = choose|i: int| 0 <= i < so_far.len() && so_far[i];
        assert(all[hit]);
    }
}

} // verus!
