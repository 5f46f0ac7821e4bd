use vstd::prelude::*;

verus! {

/// Milliseconds between stopping the old backend and starting the new one,
/// so that the operating system releases the listening port.
pub const RESTART_GRACE_MS: u64 = 500;

/// Where a restart stands.
#[derive(Clone, Copy, Debug, PartialEq, Eq, Structural)]
pub enum RestartState {
    Stopping,
    Pausing,
    Starting,
    /// Over; whether a new backend was started and stored.
    Done(bool),
}

/// What the host is asked to do next.
#[derive(Clone, Copy, Debug, PartialEq, Eq, Structural)]
pub enum RestartAction {
    /// Stop the current backend fully: take its handle, signal it and wait
    /// until it has exited.
    Stop,
    /// Sleep this many milliseconds.
    Pause(u64),
    /// Run a start attempt; on success store the new handle.
    Start,
    /// Report the result to the caller.
    Finish(bool),
}

/// The first state of a restart.
pub fn restart_state() -> (r: RestartState)
    ensures
        r == RestartState::Stopping,
{
    RestartState::Stopping
}

/// The action that the host performs in state `s`.
pub open spec fn restart_action_spec(s: RestartState) -> RestartAction {
    match s {
        RestartState::Stopping => RestartAction::Stop,
        RestartState::Pausing => RestartAction::Pause(RESTART_GRACE_MS),
        RestartState::Starting => RestartAction::Start,
        RestartState::Done(ok) => RestartAction::Finish(ok),
    }
}

/// The state after the host reports the outcome of the action just
/// performed: only the outcome of the start counts; stopping and pausing
/// always move on.
pub open spec fn next_restart_state(s: RestartState, ok: bool) -> RestartState {
    match s {
        RestartState::Stopping => RestartState::Pausing,
        RestartState::Pausing => RestartState::Starting,
        RestartState::Starting => RestartState::Done(ok),
        RestartState::Done(b) => RestartState::Done(b),
    }
}

/// The action that the host performs in state `s`.
pub fn restart_action(s: RestartState) -> (r: RestartAction)
    ensures
        r == restart_action_spec(s),
{
    match s {
        RestartState::Stopping => RestartAction::Stop,
        RestartState::Pausing => RestartAction::Pause(RESTART_GRACE_MS),
        RestartState::Starting => RestartAction::Start,
        RestartState::Done(ok) => RestartAction::Finish(ok),
    }
}

/// Advances a restart by the outcome of the action just performed.
pub fn next_restart(s: RestartState, ok: bool) -> (r: RestartState)
    ensures
        r == next_restart_state(s, ok),
{
    match s {
        RestartState::Stopping => RestartState::Pausing,
        RestartState::Pausing => RestartState::Starting,
        RestartState::Starting => RestartState::Done(ok),
        RestartState::Done(b) => RestartState::Done(b),
    }
}

/// The state of a restart after the host has reported `events`, in order.
pub open spec fn run_restart(events: Seq<bool>) -> RestartState
    decreases events.len(),
{
    if events.len() == 0 {
        RestartState::Stopping
    } else {
        next_restart_state(run_restart(events.drop_last()), events.last())
    }
}

/// The actions asked of the host while it reports `events`: one before the
/// first report and one after each.
pub open spec fn restart_trace(events: Seq<bool>) -> Seq<RestartAction>
    decreases events.len(),
{
    if events.len() == 0 {
        seq![RestartAction::Stop]
    } else {
        restart_trace(events.drop_last()).push(restart_action_spec(run_restart(events)))
    }
}

proof fn lemma_run_restart(events: Seq<bool>)
    ensures
        events.len() == 0 ==> run_restart(events) == RestartState::Stopping,
        events.len() == 1 ==> run_restart(events) == RestartState::Pausing,
        events.len() == 2 ==> run_restart(events) == RestartState::Starting,
        events.len() >= 3 ==> run_restart(events) == RestartState::Done(events[2]),
    decreases events.len(),
{
    if events.len() > 0 {
        lemma_run_restart(events.drop_last());
    }
}

/// A restart stops the old backend fully before anything else, then pauses
/// for the grace delay, then starts a new one, each exactly once and in that
/// order, whatever the host reports; after that it only reports whether the
/// start succeeded.
pub proof fn lemma_restart_stops_before_start(events: Seq<bool>)
    ensures
        restart_trace(events).len() == events.len() + 1,
        restart_trace(events)[0] == RestartAction::Stop,
        events.len() >= 1 ==> restart_trace(events)[1] == RestartAction::Pause(RESTART_GRACE_MS),
        events.len() >= 2 ==> restart_trace(events)[2] == RestartAction::Start,
        forall|k: int|
            3 <= k < restart_trace(events).len() ==> #[trigger] restart_trace(events)[k]
                == RestartAction::Finish(events[2]),
    decreases events.len(),
{
    lemma_run_restart(events);
    if events.len() > 0 {
        let prefix = events.drop_last();
        lemma_restart_stops_before_start(prefix);
        assert forall|i: int| 0 <= i < prefix.len() implies prefix[i] == events[i] by {}
    }
}

} // verus!
