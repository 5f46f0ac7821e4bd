use vstd::prelude::*;
use crate::decimal::{decimal, decimal_of};
use crate::platform::{strings_view, LaunchCommand, Platform};

verus! {

/// A running backend process as the supervisor holds it: its process
/// identifier and the host's own handle on it.
pub struct BackendHandle<H> {
    pub pid: u32,
    pub process: H,
}

/// Owner of the single backend handle. At most one handle is held at a time;
/// a handle leaves only through `take` or by being handed back from
/// `install`, so none is ever dropped unnoticed. The host keeps the
/// supervisor behind one lock and holds it only to take or store a handle.
pub struct Supervisor<H> {
    slot: Option<BackendHandle<H>>,
}

impl<H> Supervisor<H> {
    /// The handle held, if any.
    pub closed spec fn handle(&self) -> Option<BackendHandle<H>> {
        self.slot
    }

    /// A supervisor that holds `initial`: empty, or the handle of a backend
    /// started before the host came up.
    pub fn new(initial: Option<BackendHandle<H>>) -> (r: Self)
        ensures
            r.handle() == initial,
    {
        Supervisor { slot: initial }
    }

    /// Whether a handle is held.
    pub fn has_handle(&self) -> (r: bool)
        ensures
            r == self.handle() is Some,
    {
        self.slot.is_some()
    }

    /// The process identifier of the handle held, if any.
    pub fn pid(&self) -> (r: Option<u32>)
        ensures
            r == (match self.handle() {
                Some(h) => Some(h.pid),
                None => None,
            }),
    {
        match &self.slot {
            Some(h) => Some(h.pid),
            None => None,
        }
    }

    /// Takes the handle out, leaving the supervisor empty. On an empty
    /// supervisor this changes nothing and returns `None`.
    pub fn take(&mut self) -> (r: Option<BackendHandle<H>>)
        ensures
            r == old(self).handle(),
            final(self).handle() is None,
    {
        let mut taken: Option<BackendHandle<H>> = None;
        std::mem::swap(&mut taken, &mut self.slot);
        taken
    }

    /// Stores a newly started backend's handle. Whatever was held before is
    /// handed back to the caller, who must stop it: the slot never silently
    /// loses a handle.
    pub fn install(&mut self, handle: BackendHandle<H>) -> (r: Option<BackendHandle<H>>)
        ensures
            final(self).handle() == Some(handle),
            r == old(self).handle(),
    {
        let mut previous: Option<BackendHandle<H>> = Some(handle);
        std::mem::swap(&mut previous, &mut self.slot);
        previous
    }
}

/// The graceful termination request for process `pid`: a tree kill of the
/// process on Windows, a TERM signal elsewhere.
pub open spec fn signal_command_spec(p: Platform, pid: nat) -> (Seq<char>, Seq<Seq<char>>) {
    if p == Platform::Windows {
        ("taskkill"@, seq!["/PID"@, decimal_of(pid), "/T"@])
    } else {
        ("kill"@, seq!["-TERM"@, decimal_of(pid)])
    }
}

/// The command that asks process `pid` to terminate.
pub fn signal_command(p: Platform, pid: u32) -> (r: LaunchCommand)
    ensures
        r.view_parts() == signal_command_spec(p, pid as nat),
{
    let mut args: Vec<String> = Vec::new();
    if p == Platform::Windows {
        args.push(String::from_str("/PID"));
        args.push(decimal(pid));
        args.push(String::from_str("/T"));
        assert(strings_view(args@) =~= signal_command_spec(p, pid as nat).1);
        LaunchCommand { program: String::from_str("taskkill"), args }
    } else {
        args.push(String::from_str("-TERM"));
        args.push(decimal(pid));
        assert(strings_view(args@) =~= signal_command_spec(p, pid as nat).1);
        LaunchCommand { program: String::from_str("kill"), args }
    }
}

/// One step of stopping the backend, performed by the host in order.
pub enum StopStep {
    /// Run this command to request termination; a failure to run it is
    /// ignored.
    Signal(LaunchCommand),
    /// Block until the process has exited.
    WaitForExit,
}

/// The steps that stop the backend whose handle was taken: none when no
/// handle was held; otherwise the termination request, then the wait for
/// exit, which comes whether or not the request could be sent.
pub fn stop_plan(p: Platform, pid: Option<u32>) -> (r: Vec<StopStep>)
    ensures
        pid is None ==> r@.len() == 0,
        pid is Some ==> {
            &&& r@.len() == 2
            &&& r@[0] matches StopStep::Signal(c) && c.view_parts() == signal_command_spec(p, pid->0 as nat)
            &&& r@[1] is WaitForExit
        },
{
    let mut r: Vec<StopStep> = Vec::new();
    match pid {
        Some(id) => {
            r.push(StopStep::Signal(signal_command(p, id)));
            r.push(StopStep::WaitForExit);
        },
        None => {},
    }
    r
}

} // verus!
