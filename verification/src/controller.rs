//! Rotation controller: the state machine that decides, cycle by cycle, what
//! is to be done about the orientation that the classifier reports.
//!
//! The controller does no outside work. Each step takes the outcome of the
//! last piece of outside work as an event and answers with the next piece to
//! do; the caller does it and comes back with its outcome.

use crate::classifier::classified;
use crate::orientation::Orientation;
use crate::policy::{
    action_for,
    human_normal,
    keyboard_action,
    should_suppress,
    suppressed,
    upright,
    KeyboardAction,
    KeyboardMode,
};
use vstd::prelude::*;

verus! {

/// The outside work whose outcome the controller is waiting for.
#[derive(Clone, Copy, Debug, PartialEq, Eq, Structural)]
pub enum Pending {
    /// The next sample.
    Sample,
    /// The attachment probe, made for a candidate orientation.
    Probe(Orientation),
    /// The application of a candidate orientation.
    Rotation(Orientation),
}

/// The outcome of a piece of outside work.
#[derive(Clone, Copy, Debug, PartialEq, Eq, Structural)]
pub enum Event {
    /// A sample was read and classified as this orientation.
    Sampled(Orientation),
    /// The attachment probe was made; the flag says whether a keyboard is
    /// attached.
    Probed(bool),
    /// The rotation was handed to the backend; the flag says whether the
    /// backend took it.
    Applied(bool),
}

/// The next piece of outside work.
#[derive(Clone, Copy, Debug, PartialEq, Eq, Structural)]
pub enum Action {
    /// Sleep for the poll interval, then read and classify a sample.
    Wait,
    /// Probe whether a keyboard is attached.
    ProbeKeyboards,
    /// Apply the orientation, with the keyboard action that goes with it.
    Rotate(Orientation, Option<KeyboardAction>),
    /// Run the rotate hook where one is set, then go on as for `Wait`.
    RunHook,
}

/// The state of the rotation controller.
#[derive(Clone, Copy, Debug, PartialEq, Eq, Structural)]
pub struct Controller {
    /// The orientation last applied to the backend, or the one that the
    /// backend reported at startup.
    pub current: Orientation,
    /// What the controller is waiting for.
    pub pending: Pending,
    /// The keyboard mode.
    pub mode: KeyboardMode,
    /// The orientation that counts as upright for the keyboard.
    pub human_normal: Orientation,
}

/// The state in which a controller starts.
pub open spec fn started(initial: Orientation, mode: KeyboardMode, rotate_90: bool) -> Controller {
    Controller {
        current: initial,
        pending: Pending::Sample,
        mode,
        human_normal: upright(rotate_90),
    }
}

/// The rotation that the controller asks for once a candidate is accepted.
pub open spec fn rotation_of(state: Controller, candidate: Orientation) -> Action {
    Action::Rotate(candidate, action_for(state.mode, candidate, state.human_normal))
}

/// One step of the controller: the state after an event, and the action that
/// the controller answers with.
///
/// - A sample that is classified as the current orientation changes nothing.
///   Another one becomes the candidate: in detachable mode the attachment is
///   probed first, in the other modes the rotation is asked for at once.
/// - After the probe the candidate is dropped where the policy holds the
///   rotation back, and the rotation is asked for where it does not.
/// - A rotation that the backend took makes the candidate the current
///   orientation; one that it did not take leaves the current one in place.
/// - An event that the controller was not waiting for changes nothing: the
///   controller asks again for what it is waiting for.
pub open spec fn advance(state: Controller, event: Event) -> (Controller, Action) {
    match (state.pending, event) {
        (Pending::Sample, Event::Sampled(candidate)) => {
            if candidate == state.current {
                (state, Action::Wait)
            } else if state.mode == KeyboardMode::Detachable {
                (Controller { pending: Pending::Probe(candidate), ..state }, Action::ProbeKeyboards)
            } else {
                (
                    Controller { pending: Pending::Rotation(candidate), ..state },
                    rotation_of(state, candidate),
                )
            }
        },
        (Pending::Probe(candidate), Event::Probed(attached)) => {
            if suppressed(state.mode, attached, state.current, candidate, state.human_normal) {
                (Controller { pending: Pending::Sample, ..state }, Action::Wait)
            } else {
                (
                    Controller { pending: Pending::Rotation(candidate), ..state },
                    rotation_of(state, candidate),
                )
            }
        },
        (Pending::Rotation(candidate), Event::Applied(taken)) => {
            if taken {
                (
                    Controller { current: candidate, pending: Pending::Sample, ..state },
                    Action::RunHook,
                )
            } else {
                (Controller { pending: Pending::Sample, ..state }, Action::Wait)
            }
        },
        (Pending::Sample, _) => (state, Action::Wait),
        (Pending::Probe(_), _) => (state, Action::ProbeKeyboards),
        (Pending::Rotation(candidate), _) => (state, rotation_of(state, candidate)),
    }
}

impl Controller {
    /// A candidate that the controller is busy with differs from the current
    /// orientation.
    pub open spec fn well_formed(self) -> bool {
        match self.pending {
            Pending::Sample => true,
            Pending::Probe(candidate) => candidate != self.current,
            Pending::Rotation(candidate) => candidate != self.current,
        }
    }

    /// Starts a controller at the orientation that the backend reported.
    pub fn new(initial: Orientation, mode: KeyboardMode, rotate_90: bool) -> (controller: Controller)
        ensures
            controller == started(initial, mode, rotate_90),
            controller.well_formed(),
    {
        Controller {
            current: initial,
            pending: Pending::Sample,
            mode,
            human_normal: human_normal(rotate_90),
        }
    }

    /// The orientation last applied.
    pub fn current_orientation(&self) -> (orientation: Orientation)
        ensures
            orientation == self.current,
    {
        self.current
    }

    /// Classifies a sample from its flags against the controller's state:
    /// where the sample is close to no reference vector, the orientation
    /// last applied is kept.
    pub fn classify(&self, within: &[bool; 4]) -> (candidate: Orientation)
        ensures
            candidate == classified(within@, self.current),
    {
        crate::classifier::classify(within, self.current)
    }

    /// Takes the outcome of the last piece of outside work and answers with
    /// the next one.
    pub fn step(&mut self, event: Event) -> (action: Action)
        ensures
            (*final(self), action) == advance(*old(self), event),
            old(self).well_formed() ==> final(self).well_formed(),
    {
        match (self.pending, event) {
            (Pending::Sample, Event::Sampled(candidate)) => {
                if candidate == self.current {
                    Action::Wait
                } else if self.mode == KeyboardMode::Detachable {
                    self.pending = Pending::Probe(candidate);
                    Action::ProbeKeyboards
                } else {
                    self.pending = Pending::Rotation(candidate);
                    Action::Rotate(
                        candidate,
                        keyboard_action(self.mode, candidate, self.human_normal),
                    )
                }
            },
            (Pending::Probe(candidate), Event::Probed(attached)) => {
                if should_suppress(self.mode, attached, self.current, candidate, self.human_normal) {
                    self.pending = Pending::Sample;
                    Action::Wait
                } else {
                    self.pending = Pending::Rotation(candidate);
                    Action::Rotate(
                        candidate,
                        keyboard_action(self.mode, candidate, self.human_normal),
                    )
                }
            },
            (Pending::Rotation(candidate), Event::Applied(taken)) => {
                self.pending = Pending::Sample;
                if taken {
                    self.current = candidate;
                    Action::RunHook
                } else {
                    Action::Wait
                }
            },
            (Pending::Sample, _) => Action::Wait,
            (Pending::Probe(_), _) => Action::ProbeKeyboards,
            (Pending::Rotation(candidate), _) => Action::Rotate(
                candidate,
                keyboard_action(self.mode, candidate, self.human_normal),
            ),
        }
    }
}

/// The current orientation changes in one way only: a rotation that the
/// controller asked for was taken by the backend, and the orientation applied
/// becomes the current one. No sample and no probe changes it.
pub proof fn lemma_current_follows_applied(state: Controller, event: Event)
    ensures
        advance(state, event).0.current != state.current ==> event == Event::Applied(true)
            && state.pending == Pending::Rotation(advance(state, event).0.current),
        event is Sampled || event is Probed ==> advance(state, event).0.current == state.current,
{
}

/// A sample that is close to no reference vector is a no-op: it is
/// classified as the current orientation, and the step that takes it changes
/// nothing.
pub proof fn lemma_unmatched_sample_is_no_op(state: Controller, within: Seq<bool>)
    requires
        state.pending == Pending::Sample,
        within.len() == 4,
        forall|i: int| 0 <= i < 4 ==> !within[i],
    ensures
        advance(state, Event::Sampled(classified(within, state.current))) == (state, Action::Wait),
{
}

/// A step never changes the keyboard mode nor the upright orientation.
pub proof fn lemma_settings_are_kept(state: Controller, event: Event)
    ensures
        advance(state, event).0.mode == state.mode,
        advance(state, event).0.human_normal == state.human_normal,
{
}

/// A step keeps the controller well formed.
pub proof fn lemma_step_keeps_well_formed(state: Controller, event: Event)
    requires
        state.well_formed(),
    ensures
        advance(state, event).0.well_formed(),
{
}

/// A sample that is classified as the current orientation leaves the whole
/// state as it is, and nothing is asked of the backend.
pub proof fn lemma_same_orientation_is_no_op(state: Controller)
    requires
        state.pending == Pending::Sample,
    ensures
        advance(state, Event::Sampled(state.current)) == (state, Action::Wait),
{
}

/// A rotation that the policy holds back leaves the state as it was before
/// the candidate came up: the candidate is not recorded.
pub proof fn lemma_suppressed_rotation_is_dropped(
    state: Controller,
    candidate: Orientation,
    attached: bool,
)
    requires
        state.pending == Pending::Sample,
        candidate != state.current,
        suppressed(state.mode, attached, state.current, candidate, state.human_normal),
    ensures
        ({
            let probing = advance(state, Event::Sampled(candidate));
            &&& probing.1 == Action::ProbeKeyboards
            &&& advance(probing.0, Event::Probed(attached)) == (state, Action::Wait)
        }),
{
}

/// Every rotation that the controller asks for is to an orientation other
/// than the current one, provided the controller is well formed.
pub proof fn lemma_rotation_is_a_change(state: Controller, event: Event)
    requires
        state.well_formed(),
    ensures
        advance(state, event).1 matches Action::Rotate(target, _) ==> target != state.current,
{
}

/// Outside detachable mode no rotation is held back and no probe is asked
/// for: a sample of another orientation leads straight to the rotation.
pub proof fn lemma_other_modes_never_suppress(
    state: Controller,
    candidate: Orientation,
    attached: bool,
)
    requires
        state.mode != KeyboardMode::Detachable,
    ensures
        !suppressed(state.mode, attached, state.current, candidate, state.human_normal),
        state.pending == Pending::Sample && candidate != state.current ==> advance(
            state,
            Event::Sampled(candidate),
        ).1 == rotation_of(state, candidate),
{
}

} // verus!
