use vstd::prelude::*;
use crate::locator::{global_command, global_commands_spec, sidecar_args, sidecar_args_spec, GLOBAL_COMMAND_COUNT};
use crate::platform::{strings_view, LaunchCommand, Platform};

verus! {

/// How the backend is obtained; chosen once, at build or configuration time.
#[derive(Clone, Copy, Debug, PartialEq, Eq, Structural)]
pub enum Deployment {
    /// Search the global command lines, then the embedded script.
    Search,
    /// Launch the companion executable bundled beside the host.
    Sidecar,
}

/// The way a running backend was launched.
#[derive(Clone, Copy, Debug, PartialEq, Eq, Structural)]
pub enum LaunchStrategy {
    /// The globally installed command line.
    GlobalCli,
    /// The same command line through the package runner.
    PackageRunner,
    /// The embedded entry script under a local runtime.
    EmbeddedScript,
    /// The bundled companion executable.
    Sidecar,
}

/// Why no backend was started; the host keeps running without one.
#[derive(Clone, Copy, Debug, PartialEq, Eq, Structural)]
pub enum Degraded {
    /// Every global command line failed and no resource directory exists.
    NoResourceDir,
    /// No runtime executable was found.
    NoRuntime,
    /// The entry script is missing under the resource directory.
    NoEntryScript,
    /// The runtime could not be spawned on the entry script.
    EmbeddedSpawnFailed,
    /// The bundled companion executable could not be spawned.
    SidecarSpawnFailed,
}

/// The end of a start attempt.
#[derive(Clone, Copy, Debug, PartialEq, Eq, Structural)]
pub enum StartOutcome {
    Started(LaunchStrategy),
    NotStarted(Degraded),
}

/// Where a start attempt stands: the next thing to try, or its end.
#[derive(Clone, Copy, Debug, PartialEq, Eq, Structural)]
pub enum StartState {
    /// Spawn the global command line with this index.
    TryGlobal(usize),
    /// Look for the resource directory.
    FindResourceDir,
    /// Look for a runtime executable.
    FindRuntime,
    /// Check that the entry script exists.
    CheckEntry,
    /// Spawn the runtime on the entry script.
    SpawnEmbedded,
    /// Spawn the bundled companion executable.
    SpawnSidecar,
    Finished(StartOutcome),
}

/// What the host is asked to do next; it reports back whether it succeeded.
pub enum StartAction {
    /// Spawn this command with its output streams piped to the log.
    Spawn(LaunchCommand),
    /// Spawn the bundled companion executable with these arguments.
    SpawnSidecar(Vec<String>),
    FindResourceDir,
    FindRuntime,
    CheckEntry,
    /// Spawn the runtime found on the entry script, in the resource
    /// directory.
    SpawnEmbedded,
    /// The attempt is over.
    Finish(StartOutcome),
}

impl StartState {
    /// Indices of global command lines stay in range.
    pub open spec fn wf(&self) -> bool {
        match *self {
            StartState::TryGlobal(i) => i < GLOBAL_COMMAND_COUNT,
            _ => true,
        }
    }
}

/// The strategy of the global command line with index `i`.
pub open spec fn global_strategy(i: usize) -> LaunchStrategy {
    if i == 0 { LaunchStrategy::GlobalCli } else { LaunchStrategy::PackageRunner }
}

/// The first state of a start attempt.
pub open spec fn start_state_spec(mode: Deployment) -> StartState {
    match mode {
        Deployment::Search => StartState::TryGlobal(0),
        Deployment::Sidecar => StartState::SpawnSidecar,
    }
}

/// The state after the host reports whether the current step succeeded.
/// A successful spawn ends the attempt; a failed one moves on to the next
/// candidate; a failed lookup ends it degraded.
pub open spec fn next_start_state(s: StartState, ok: bool) -> StartState {
    match s {
        StartState::TryGlobal(i) => if ok {
            StartState::Finished(StartOutcome::Started(global_strategy(i)))
        } else if i + 1 < GLOBAL_COMMAND_COUNT {
            StartState::TryGlobal((i + 1) as usize)
        } else {
            StartState::FindResourceDir
        },
        StartState::FindResourceDir => if ok {
            StartState::FindRuntime
        } else {
            StartState::Finished(StartOutcome::NotStarted(Degraded::NoResourceDir))
        },
        StartState::FindRuntime => if ok {
            StartState::CheckEntry
        } else {
            StartState::Finished(StartOutcome::NotStarted(Degraded::NoRuntime))
        },
        StartState::CheckEntry => if ok {
            StartState::SpawnEmbedded
        } else {
            StartState::Finished(StartOutcome::NotStarted(Degraded::NoEntryScript))
        },
        StartState::SpawnEmbedded => if ok {
            StartState::Finished(StartOutcome::Started(LaunchStrategy::EmbeddedScript))
        } else {
            StartState::Finished(StartOutcome::NotStarted(Degraded::EmbeddedSpawnFailed))
        },
        StartState::SpawnSidecar => if ok {
            StartState::Finished(StartOutcome::Started(LaunchStrategy::Sidecar))
        } else {
            StartState::Finished(StartOutcome::NotStarted(Degraded::SidecarSpawnFailed))
        },
        StartState::Finished(o) => StartState::Finished(o),
    }
}

/// The action that the host performs in state `s`.
pub open spec fn start_action_matches(p: Platform, s: StartState, a: StartAction) -> bool {
    match s {
        StartState::TryGlobal(i) => a matches StartAction::Spawn(c)
            && c.view_parts() == global_commands_spec(p)[i as int],
        StartState::FindResourceDir => a is FindResourceDir,
        StartState::FindRuntime => a is FindRuntime,
        StartState::CheckEntry => a is CheckEntry,
        StartState::SpawnEmbedded => a is SpawnEmbedded,
        StartState::SpawnSidecar => a matches StartAction::SpawnSidecar(args)
            && strings_view(args@) == sidecar_args_spec(),
        StartState::Finished(o) => a == StartAction::Finish(o),
    }
}

/// The first state of a start attempt in the given deployment mode.
pub fn start_state(mode: Deployment) -> (r: StartState)
    ensures
        r == start_state_spec(mode),
        r.wf(),
{
    match mode {
        Deployment::Search => StartState::TryGlobal(0),
        Deployment::Sidecar => StartState::SpawnSidecar,
    }
}

/// Advances a start attempt by the outcome of the step just performed.
pub fn next_start(s: StartState, ok: bool) -> (r: StartState)
    requires
        s.wf(),
    ensures
        r == next_start_state(s, ok),
        r.wf(),
{
    match s {
        StartState::TryGlobal(i) => if ok {
            StartState::Finished(
                StartOutcome::Started(if i == 0 { LaunchStrategy::GlobalCli } else { LaunchStrategy::PackageRunner }),
            )
        } else if i + 1 < GLOBAL_COMMAND_COUNT {
            StartState::TryGlobal(i + 1)
        } else {
            StartState::FindResourceDir
        },
        StartState::FindResourceDir => if ok {
            StartState::FindRuntime
        } else {
            StartState::Finished(StartOutcome::NotStarted(Degraded::NoResourceDir))
        },
        StartState::FindRuntime => if ok {
            StartState::CheckEntry
        } else {
            StartState::Finished(StartOutcome::NotStarted(Degraded::NoRuntime))
        },
        StartState::CheckEntry => if ok {
            StartState::SpawnEmbedded
        } else {
            StartState::Finished(StartOutcome::NotStarted(Degraded::NoEntryScript))
        },
        StartState::SpawnEmbedded => if ok {
            StartState::Finished(StartOutcome::Started(LaunchStrategy::EmbeddedScript))
        } else {
            StartState::Finished(StartOutcome::NotStarted(Degraded::EmbeddedSpawnFailed))
        },
        StartState::SpawnSidecar => if ok {
            StartState::Finished(StartOutcome::Started(LaunchStrategy::Sidecar))
        } else {
            StartState::Finished(StartOutcome::NotStarted(Degraded::SidecarSpawnFailed))
        },
        StartState::Finished(o) => StartState::Finished(o),
    }
}

/// The action that the host performs in state `s`.
pub fn start_action(p: Platform, s: StartState) -> (r: StartAction)
    requires
        s.wf(),
    ensures
        start_action_matches(p, s, r),
{
    match s {
        StartState::TryGlobal(i) => StartAction::Spawn(global_command(p, i)),
        StartState::FindResourceDir => StartAction::FindResourceDir,
        StartState::FindRuntime => StartAction::FindRuntime,
        StartState::CheckEntry => StartAction::CheckEntry,
        StartState::SpawnEmbedded => StartAction::SpawnEmbedded,
        StartState::SpawnSidecar => StartAction::SpawnSidecar(sidecar_args()),
        StartState::Finished(o) => StartAction::Finish(o),
    }
}

/// The state reached from `s` after the host reports `events`, in order.
pub open spec fn run_start(s: StartState, events: Seq<bool>) -> StartState
    decreases events.len(),
{
    if events.len() == 0 {
        s
    } else {
        run_start(next_start_state(s, events[0]), events.drop_first())
    }
}

/// How many more reports state `s` takes at most before the attempt ends.
pub open spec fn steps_left(s: StartState) -> nat {
    match s {
        StartState::TryGlobal(i) => (GLOBAL_COMMAND_COUNT - i + 4) as nat,
        StartState::FindResourceDir => 4,
        StartState::FindRuntime => 3,
        StartState::CheckEntry => 2,
        StartState::SpawnEmbedded => 1,
        StartState::SpawnSidecar => 1,
        StartState::Finished(_) => 0,
    }
}

/// Each report brings an unfinished attempt one step nearer its end, and a
/// finished attempt keeps its outcome.
pub proof fn lemma_start_step_progress(s: StartState, ok: bool)
    requires
        s.wf(),
    ensures
        next_start_state(s, ok).wf(),
        s is Finished ==> next_start_state(s, ok) == s,
        !(s is Finished) ==> steps_left(next_start_state(s, ok)) < steps_left(s),
{
}

/// A start attempt always ends: whatever the host reports, it is finished
/// after as many reports as `steps_left` gives, and after that its outcome no
/// longer changes. In search mode that is six reports, in sidecar mode one.
pub proof fn lemma_start_terminates(s: StartState, events: Seq<bool>)
    requires
        s.wf(),
        events.len() >= steps_left(s),
    ensures
        run_start(s, events) is Finished,
        s is Finished ==> run_start(s, events) == s,
    decreases events.len(),
{
    if events.len() > 0 {
        lemma_start_step_progress(s, events[0]);
        lemma_start_terminates(next_start_state(s, events[0]), events.drop_first());
    }
}

/// Starting from scratch, six reports finish a search, one a sidecar launch.
pub proof fn lemma_start_bounded(mode: Deployment, events: Seq<bool>)
    requires
        events.len() >= 6,
    ensures
        run_start(start_state_spec(mode), events) is Finished,
{
    lemma_start_terminates(start_state_spec(mode), events);
}

} // verus!
