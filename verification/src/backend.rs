//! The display-server family that controls the session.

use vstd::prelude::*;

verus! {

/// The display server in control of the session, fixed at startup.
#[derive(Clone, Copy, Debug, PartialEq, Eq, Structural)]
pub enum Backend {
    /// The Sway compositor, driven through `swaymsg`.
    Sway,
    /// An X11 server, driven through `xrandr` and `xinput`.
    Xorg,
}

/// Neither a compositor nor an X11 server is running.
#[derive(Clone, Copy, Debug, PartialEq, Eq, Structural)]
pub struct NoBackend;

impl NoBackend {
    /// The message shown when the program gives up.
    pub fn message(&self) -> (text: &'static str)
        ensures
            text@ == "Unable to find Sway or Xorg procceses"@,
    {
        "Unable to find Sway or Xorg procceses"
    }
}

/// The backend that two process listings point to: the compositor where its
/// listing names a process, else the X11 server where that one does.
pub open spec fn detected(sway_pids: Seq<char>, xorg_pids: Seq<char>) -> Result<
    Backend,
    NoBackend,
> {
    if sway_pids.len() > 0 {
        Ok(Backend::Sway)
    } else if xorg_pids.len() > 0 {
        Ok(Backend::Xorg)
    } else {
        Err(NoBackend)
    }
}

/// Chooses the backend from what `pidof sway` and `pidof Xorg` printed.
pub fn detect(sway_pids: &str, xorg_pids: &str) -> (found: Result<Backend, NoBackend>)
    ensures
        found == detected(sway_pids@, xorg_pids@),
{
    if !sway_pids.is_empty() {
        Ok(Backend::Sway)
    } else if !xorg_pids.is_empty() {
        Ok(Backend::Xorg)
    } else {
        Err(NoBackend)
    }
}

} // verus!
