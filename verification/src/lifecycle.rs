//! The life of the forwarding runtime: stopped, running a generation of
//! workers, or reloading between two generations.

use vstd::prelude::*;

verus! {

/// Seconds between two sweeps in which the remote ends are resolved anew.
pub const REFRESH_PERIOD_SECS: u64 = 10;

/// Capacity of the reload and the kill broadcast channels.
pub const BROADCAST_CAPACITY: usize = 16;

/// The state of the runtime.
#[derive(Debug, Clone, Copy, PartialEq, Eq, Structural)]
pub enum RunState {
    /// No configuration has been loaded yet; no worker runs.
    Stopped,
    /// The workers of this generation run.
    Running(u64),
    /// The workers of this generation have been told to end and are being
    /// joined.
    Reloading(u64),
}

/// What happened.
#[derive(Debug, Clone, Copy, PartialEq, Eq, Structural)]
pub enum Event {
    /// The configuration was loaded for the first time.
    ConfigLoaded,
    /// A hang-up signal came and the configuration was read anew; `loaded`
    /// says whether that gave a configuration.
    Hangup { loaded: bool },
    /// All workers that were told to end have ended.
    WorkersJoined,
}

/// What is to be done.
#[derive(Debug, Clone, Copy, PartialEq, Eq, Structural)]
pub enum Command {
    /// Nothing.
    Nothing,
    /// Bring the interfaces in line with the configuration and start the
    /// workers of this generation.
    Start(u64),
    /// Tell all workers to end and join them.
    Stop,
    /// Keep the configuration that is in use and log a warning.
    Warn,
}

/// The state that follows `state` on `event`, and what is to be done then.
/// The first configuration starts generation 0. A hang-up that gave a
/// configuration ends the running generation; once its workers are joined
/// the next generation starts. A hang-up that gave none changes nothing, and
/// one that comes while a reload is under way starts no second reload.
pub open spec fn step_spec(state: RunState, event: Event) -> (RunState, Command) {
    match (state, event) {
        (RunState::Stopped, Event::ConfigLoaded) => (RunState::Running(0), Command::Start(0)),
        (RunState::Running(g), Event::Hangup { loaded: true }) => (
            RunState::Reloading(g),
            Command::Stop,
        ),
        (RunState::Reloading(g), Event::WorkersJoined) => (
            RunState::Running((g + 1) as u64),
            Command::Start((g + 1) as u64),
        ),
        (_, Event::Hangup { loaded: false }) => (state, Command::Warn),
        _ => (state, Command::Nothing),
    }
}

/// The generation that `state` is in or leaves; none while stopped.
pub open spec fn generation(state: RunState) -> Option<u64> {
    match state {
        RunState::Stopped => None,
        RunState::Running(g) => Some(g),
        RunState::Reloading(g) => Some(g),
    }
}

/// Takes `event` in `state`: returns the next state and what is to be done.
pub fn step(state: RunState, event: Event) -> (next: (RunState, Command))
    requires
        state matches RunState::Reloading(g) ==> g < u64::MAX,
    ensures
        next == step_spec(state, event),
{
    match (state, event) {
        (RunState::Stopped, Event::ConfigLoaded) => (RunState::Running(0), Command::Start(0)),
        (RunState::Running(g), Event::Hangup { loaded: true }) => (
            RunState::Reloading(g),
            Command::Stop,
        ),
        (RunState::Reloading(g), Event::WorkersJoined) => (
            RunState::Running(g + 1),
            Command::Start(g + 1),
        ),
        (_, Event::Hangup { loaded: false }) => (state, Command::Warn),
        _ => (state, Command::Nothing),
    }
}

/// A reload that fails leaves the runtime as it is: the state stays, and no
/// worker is started or told to end.
pub proof fn lemma_failed_reload_changes_nothing(state: RunState)
    ensures
        step_spec(state, Event::Hangup { loaded: false }) == (state, Command::Warn),
{
}

/// Workers are started only on entering the running state, and those of a
/// later generation only after those of the one before have been joined.
pub proof fn lemma_start_follows_join(state: RunState, event: Event)
    requires
        state matches RunState::Reloading(g) ==> g < u64::MAX,
        step_spec(state, event).1 is Start,
    ensures
        step_spec(state, event).0 == RunState::Running(step_spec(state, event).1->Start_0),
        state is Stopped ==> event is ConfigLoaded && step_spec(state, event).1 == Command::Start(
            0,
        ),
        !(state is Stopped) ==> state is Reloading && event is WorkersJoined && step_spec(
            state,
            event,
        ).1->Start_0 == generation(state).unwrap() + 1,
{
}

/// Workers are told to end only while they run, and only by a hang-up that
/// gave a configuration; the generation stays the same until they are
/// joined.
pub proof fn lemma_stop_needs_reload(state: RunState, event: Event)
    requires
        step_spec(state, event).1 is Stop,
    ensures
        state is Running,
        event == (Event::Hangup { loaded: true }),
        step_spec(state, event).0 is Reloading,
        generation(step_spec(state, event).0) == generation(state),
{
}

} // verus!
