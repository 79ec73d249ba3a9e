use vstd::prelude::*;

verus! {

/// Which virtual terminals the greeter came from and switched to.
#[derive(Debug, Clone, Copy, PartialEq, Eq, Structural)]
pub struct VtController {
    pub original_vt: Option<u32>,
    pub active_vt: Option<u32>,
}

/// What happened during the start-up switch.
#[derive(Debug, Clone, Copy, PartialEq, Eq, Structural)]
pub enum VtEvent {
    /// The switch begins; it is off when the settings say so.
    Begin { no_vt_switch: bool },
    /// The current terminal was read (if it could be), with the terminal
    /// that the settings prefer.
    Current { current_vt: Option<u32>, preferred_vt: Option<u32> },
    /// An idle terminal was looked for.
    Idle { idle_vt: Option<u32> },
    /// Switching to a terminal was tried.
    Switched { vt: u32, ok: bool },
}

/// What the caller does next during the start-up switch.
#[derive(Debug, Clone, Copy, PartialEq, Eq, Structural)]
pub enum VtWork {
    /// Read the current terminal's number.
    ReadCurrent,
    /// Look for an idle terminal.
    FindIdle,
    /// Switch to this terminal and wait until it is active.
    SwitchTo(u32),
    /// Silence kernel messages; the switch ended on this terminal, if any.
    Done(Option<u32>),
}

/// The controller and the next work after an event of the start-up switch.
pub open spec fn vt_step(c: VtController, e: VtEvent) -> (VtController, VtWork) {
    match e {
        VtEvent::Begin { no_vt_switch } => (
            c,
            if no_vt_switch {
                VtWork::Done(None)
            } else {
                VtWork::ReadCurrent
            },
        ),
        VtEvent::Current { current_vt, preferred_vt } => (
            VtController { original_vt: current_vt, ..c },
            match preferred_vt {
                Some(v) => VtWork::SwitchTo(v),
                None => VtWork::FindIdle,
            },
        ),
        VtEvent::Idle { idle_vt } => (
            c,
            match idle_vt {
                Some(v) => VtWork::SwitchTo(v),
                None => VtWork::Done(None),
            },
        ),
        VtEvent::Switched { vt, ok } => if ok {
            (VtController { active_vt: Some(vt), ..c }, VtWork::Done(Some(vt)))
        } else {
            (c, VtWork::Done(None))
        },
    }
}

/// The terminal to go back to on exit: the original one, when the greeter
/// is on another.
pub open spec fn switch_back(c: VtController) -> Option<u32> {
    match (c.original_vt, c.active_vt) {
        (Some(o), Some(a)) => if o != a {
            Some(o)
        } else {
            None
        },
        _ => None,
    }
}

impl VtController {
    pub fn new() -> (r: VtController)
        ensures
            r.original_vt is None,
            r.active_vt is None,
    {
        VtController { original_vt: None, active_vt: None }
    }

    /// One step of the start-up switch. The caller does the work that the
    /// answer names and reports its outcome as the next event, until the
    /// answer is `Done`; then kernel messages are silenced and the terminal
    /// in `Done` (if any) is the one switched to.
    ///
    /// With switching off nothing is probed or recorded. Otherwise the
    /// current terminal is recorded, the target is the preferred terminal or
    /// else an idle one (probed only without a preferred one), and when
    /// switching to the target worked it becomes the active terminal.
    pub fn init(&mut self, event: VtEvent) -> (r: VtWork)
        ensures
            (*final(self), r) == vt_step(*old(self), event),
    {
        match event {
            VtEvent::Begin { no_vt_switch } => if no_vt_switch {
                VtWork::Done(None)
            } else {
                VtWork::ReadCurrent
            },
            VtEvent::Current { current_vt, preferred_vt } => {
                self.original_vt = current_vt;
                match preferred_vt {
                    Some(v) => VtWork::SwitchTo(v),
                    None => VtWork::FindIdle,
                }
            },
            VtEvent::Idle { idle_vt } => match idle_vt {
                Some(v) => VtWork::SwitchTo(v),
                None => VtWork::Done(None),
            },
            VtEvent::Switched { vt, ok } => if ok {
                self.active_vt = Some(vt);
                VtWork::Done(Some(vt))
            } else {
                VtWork::Done(None)
            },
        }
    }

    /// The terminal to switch back to on exit: the original one, when the
    /// greeter switched away from it.
    pub fn restore(&self) -> (r: Option<u32>)
        ensures
            r == switch_back(*self),
    {
        match (self.original_vt, self.active_vt) {
            (Some(o), Some(a)) => if o != a {
                Some(o)
            } else {
                None
            },
            _ => None,
        }
    }
}

} // verus!
