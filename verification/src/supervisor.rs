//! The per-pair supervision logic: the retry policy that decides what a
//! missing directory means under the effective settings, the classification
//! of watch notifications and liveness probes, and the supervisor state
//! machine that drives availability waiting, initial reconciliation, watch
//! setup and event-driven resynchronization. The machine is a pure step
//! function from state and event to next state and action; the caller runs
//! the loop, performs each action (probing, sleeping, passes, watch setup and
//! teardown) and feeds the outcome back in as the next event.

use vstd::prelude::*;

use crate::config::{OnMissing, Settings};

verus! {

/// What the retry policy decides about an unavailable directory.
#[derive(Clone, Copy, Debug, PartialEq, Eq, Structural)]
pub enum RetryDecision {
    /// The error is fatal: propagate it and terminate the pair abnormally.
    Fatal,
    /// Log the error as a warning, then give the pair up.
    StopWarned,
    /// Give the pair up without logging.
    StopSilent,
    /// Sleep for the carried number of seconds, then try again.
    RetryAfter(u64),
}

/// The decision the retry policy takes under the given settings.
pub open spec fn spec_should_retry(settings: Settings) -> RetryDecision {
    match settings.on_missing {
        OnMissing::Error => RetryDecision::Fatal,
        OnMissing::Warn => RetryDecision::StopWarned,
        OnMissing::Ignore => RetryDecision::StopSilent,
        OnMissing::Retry => RetryDecision::RetryAfter(settings.retry_delay),
    }
}

/// The sole decision point for transient-unavailability handling: whether an
/// unavailable directory is fatal, ends the pair with or without a warning,
/// or is waited out.
pub fn should_retry(settings: &Settings) -> (d: RetryDecision)
    ensures
        d == spec_should_retry(*settings),
{
    match settings.on_missing {
        OnMissing::Error => RetryDecision::Fatal,
        OnMissing::Warn => RetryDecision::StopWarned,
        OnMissing::Ignore => RetryDecision::StopSilent,
        OnMissing::Retry => RetryDecision::RetryAfter(settings.retry_delay),
    }
}

/// The kind of a filesystem change notification on the watched source.
#[derive(Clone, Copy, Debug, PartialEq, Eq, Structural)]
pub enum WatchEventKind {
    /// A pure access (a read): never a reason to resynchronize.
    Access,
    Create,
    Modify,
    Remove,
    /// Anything the notification library reports beyond the kinds above.
    Other,
}

/// Whether a notification of this kind is forwarded into the wake-up queue:
/// every kind but a pure access event is.
pub fn forward_event(kind: &WatchEventKind) -> (forward: bool)
    ensures
        forward <==> !(kind is Access),
{
    match kind {
        WatchEventKind::Access => false,
        _ => true,
    }
}

/// Whether a liveness probe injects a synthetic wake-up: it does exactly when
/// either directory failed its check.
pub fn liveness_wake(source_ok: bool, dest_ok: bool) -> (wake: bool)
    ensures
        wake <==> !(source_ok && dest_ok),
{
    !(source_ok && dest_ok)
}

/// Where a pair's supervisor stands.
#[derive(Clone, Copy, Debug, PartialEq, Eq, Structural)]
pub enum SupervisorState {
    /// Waiting for both directories to resolve for the first time (or again
    /// after they were lost).
    Waiting,
    /// Running the initial full resynchronization pass.
    InitialSync,
    /// Re-verifying both directories before (re)establishing a watch.
    Rechecking,
    /// Establishing the filesystem notification and the liveness timer.
    SettingUpWatch,
    /// Consuming the wake-up queue.
    Watching,
    /// Running a pass triggered by a wake-up.
    Resyncing,
    /// Ended gracefully (run-once done, or given up per policy).
    Stopped,
    /// Ended abnormally (fatal policy, failed pass or failed watch setup).
    Failed,
}

/// What the supervisor's surroundings report back.
#[derive(Clone, Copy, Debug, PartialEq, Eq, Structural)]
pub enum SupervisorEvent {
    /// Both directories probed successfully.
    ProbeOk,
    /// Probing some directory failed.
    ProbeErr,
    /// A full resynchronization pass completed.
    PassOk,
    /// A pass aborted on a filesystem error.
    PassErr,
    /// The watch and liveness timer are established.
    WatchOk,
    /// The watch could not be established.
    WatchErr,
    /// A wake-up was taken from the queue; the payload says whether both
    /// directories still passed the directory check.
    Wake { dirs_ok: bool },
}

/// What the supervisor asks its surroundings to do next.
#[derive(Clone, Copy, Debug, PartialEq, Eq, Structural)]
pub enum SupervisorAction {
    /// Probe source and destination, report `ProbeOk` or `ProbeErr`.
    ProbeDirs,
    /// Sleep the carried number of seconds, probe again, report the outcome.
    RetryAfterDelay(u64),
    /// Perform a full resynchronization pass, report `PassOk` or `PassErr`.
    RunPass,
    /// Establish the watch and liveness timer, report `WatchOk` or
    /// `WatchErr`.
    SetupWatch,
    /// Block on the wake-up queue, report the next `Wake`.
    AwaitWake,
    /// Release the watch, signal the liveness timer to stop, then resolve
    /// the configured path strings anew (they may have changed identity, as
    /// after a remount) and report the outcome.
    TeardownWatch,
    /// Log the pending unavailability as a warning, then end the pair.
    ReportStop,
    /// End the pair without reporting anything.
    QuietStop,
    /// The single requested run is complete: end the pair successfully.
    Finish,
    /// Propagate the pending error and end the pair abnormally.
    Abort,
    /// Nothing: the event carries no meaning in the current state.
    Hold,
}

/// What giving up on an unavailable directory means in a waiting state.
pub open spec fn spec_unavailable_step(
    state: SupervisorState,
    settings: Settings,
) -> (SupervisorState, SupervisorAction) {
    match settings.on_missing {
        OnMissing::Error => (SupervisorState::Failed, SupervisorAction::Abort),
        OnMissing::Warn => (SupervisorState::Stopped, SupervisorAction::ReportStop),
        OnMissing::Ignore => (SupervisorState::Stopped, SupervisorAction::QuietStop),
        OnMissing::Retry => (state, SupervisorAction::RetryAfterDelay(settings.retry_delay)),
    }
}

/// The supervisor's transition relation. Every pair of state and event is
/// mapped; an event that cannot arise in a state leaves it unchanged with
/// nothing to do.
pub open spec fn spec_step(
    state: SupervisorState,
    event: SupervisorEvent,
    settings: Settings,
    once: bool,
) -> (SupervisorState, SupervisorAction) {
    match (state, event) {
        (SupervisorState::Waiting, SupervisorEvent::ProbeOk) => (
            SupervisorState::InitialSync,
            SupervisorAction::RunPass,
        ),
        (SupervisorState::Waiting, SupervisorEvent::ProbeErr) => spec_unavailable_step(
            state,
            settings,
        ),
        (SupervisorState::InitialSync, SupervisorEvent::PassOk) => if once {
            (SupervisorState::Stopped, SupervisorAction::Finish)
        } else {
            (SupervisorState::Rechecking, SupervisorAction::ProbeDirs)
        },
        (SupervisorState::InitialSync, SupervisorEvent::PassErr) => (
            SupervisorState::Failed,
            SupervisorAction::Abort,
        ),
        (SupervisorState::Rechecking, SupervisorEvent::ProbeOk) => (
            SupervisorState::SettingUpWatch,
            SupervisorAction::SetupWatch,
        ),
        (SupervisorState::Rechecking, SupervisorEvent::ProbeErr) => spec_unavailable_step(
            state,
            settings,
        ),
        (SupervisorState::SettingUpWatch, SupervisorEvent::WatchOk) => (
            SupervisorState::Watching,
            SupervisorAction::AwaitWake,
        ),
        (SupervisorState::SettingUpWatch, SupervisorEvent::WatchErr) => (
            SupervisorState::Failed,
            SupervisorAction::Abort,
        ),
        (SupervisorState::Watching, SupervisorEvent::Wake { dirs_ok }) => if dirs_ok {
            (SupervisorState::Resyncing, SupervisorAction::RunPass)
        } else {
            (SupervisorState::Waiting, SupervisorAction::TeardownWatch)
        },
        (SupervisorState::Resyncing, SupervisorEvent::PassOk) => (
            SupervisorState::Watching,
            SupervisorAction::AwaitWake,
        ),
        (SupervisorState::Resyncing, SupervisorEvent::PassErr) => (
            SupervisorState::Failed,
            SupervisorAction::Abort,
        ),
        _ => (state, SupervisorAction::Hold),
    }
}

/// Advances the supervisor by one event. Within one pair, events are consumed
/// one at a time: each action completes (and reports back) before the next
/// event is taken, so there are no concurrent passes on a pair.
pub fn supervisor_step(
    state: SupervisorState,
    event: SupervisorEvent,
    settings: &Settings,
    once: bool,
) -> (r: (SupervisorState, SupervisorAction))
    ensures
        r == spec_step(state, event, *settings, once),
{
    match (state, event) {
        (SupervisorState::Waiting, SupervisorEvent::ProbeOk) => (
            SupervisorState::InitialSync,
            SupervisorAction::RunPass,
        ),
        (SupervisorState::Waiting, SupervisorEvent::ProbeErr) => match should_retry(settings) {
            RetryDecision::Fatal => (SupervisorState::Failed, SupervisorAction::Abort),
            RetryDecision::StopWarned => (SupervisorState::Stopped, SupervisorAction::ReportStop),
            RetryDecision::StopSilent => (SupervisorState::Stopped, SupervisorAction::QuietStop),
            RetryDecision::RetryAfter(delay) => (
                SupervisorState::Waiting,
                SupervisorAction::RetryAfterDelay(delay),
            ),
        },
        (SupervisorState::InitialSync, SupervisorEvent::PassOk) => if once {
            (SupervisorState::Stopped, SupervisorAction::Finish)
        } else {
            (SupervisorState::Rechecking, SupervisorAction::ProbeDirs)
        },
        (SupervisorState::InitialSync, SupervisorEvent::PassErr) => (
            SupervisorState::Failed,
            SupervisorAction::Abort,
        ),
        (SupervisorState::Rechecking, SupervisorEvent::ProbeOk) => (
            SupervisorState::SettingUpWatch,
            SupervisorAction::SetupWatch,
        ),
        (SupervisorState::Rechecking, SupervisorEvent::ProbeErr) => match should_retry(settings) {
            RetryDecision::Fatal => (SupervisorState::Failed, SupervisorAction::Abort),
            RetryDecision::StopWarned => (SupervisorState::Stopped, SupervisorAction::ReportStop),
            RetryDecision::StopSilent => (SupervisorState::Stopped, SupervisorAction::QuietStop),
            RetryDecision::RetryAfter(delay) => (
                SupervisorState::Rechecking,
                SupervisorAction::RetryAfterDelay(delay),
            ),
        },
        (SupervisorState::SettingUpWatch, SupervisorEvent::WatchOk) => (
            SupervisorState::Watching,
            SupervisorAction::AwaitWake,
        ),
        (SupervisorState::SettingUpWatch, SupervisorEvent::WatchErr) => (
            SupervisorState::Failed,
            SupervisorAction::Abort,
        ),
        (SupervisorState::Watching, SupervisorEvent::Wake { dirs_ok }) => if dirs_ok {
            (SupervisorState::Resyncing, SupervisorAction::RunPass)
        } else {
            (SupervisorState::Waiting, SupervisorAction::TeardownWatch)
        },
        (SupervisorState::Resyncing, SupervisorEvent::PassOk) => (
            SupervisorState::Watching,
            SupervisorAction::AwaitWake,
        ),
        (SupervisorState::Resyncing, SupervisorEvent::PassErr) => (
            SupervisorState::Failed,
            SupervisorAction::Abort,
        ),
        _ => (state, SupervisorAction::Hold),
    }
}

/// The state reached from `state` after consuming the events in order.
pub open spec fn spec_run(
    state: SupervisorState,
    events: Seq<SupervisorEvent>,
    settings: Settings,
    once: bool,
) -> SupervisorState
    decreases events.len(),
{
    if events.len() == 0 {
        state
    } else {
        spec_run(spec_step(state, events[0], settings, once).0, events.skip(1), settings, once)
    }
}

/// Retry never gives up: under a retry policy, each failed probe while
/// waiting only schedules another attempt after the configured delay, so any
/// run of failures leaves the supervisor waiting; the first successful probe
/// then proceeds to the initial sync.
pub proof fn lemma_retry_waits_indefinitely(
    events: Seq<SupervisorEvent>,
    settings: Settings,
    once: bool,
)
    requires
        settings.on_missing == OnMissing::Retry,
        forall|i: int| 0 <= i < events.len() ==> events[i] == SupervisorEvent::ProbeErr,
    ensures
        spec_run(SupervisorState::Waiting, events, settings, once) == SupervisorState::Waiting,
        spec_step(SupervisorState::Waiting, SupervisorEvent::ProbeErr, settings, once) == (
            SupervisorState::Waiting,
            SupervisorAction::RetryAfterDelay(settings.retry_delay),
        ),
        spec_step(SupervisorState::Waiting, SupervisorEvent::ProbeOk, settings, once) == (
            SupervisorState::InitialSync,
            SupervisorAction::RunPass,
        ),
        spec_run(SupervisorState::Rechecking, events, settings, once)
            == SupervisorState::Rechecking,
        spec_step(SupervisorState::Rechecking, SupervisorEvent::ProbeErr, settings, once) == (
            SupervisorState::Rechecking,
            SupervisorAction::RetryAfterDelay(settings.retry_delay),
        ),
    decreases events.len(),
{
    if events.len() > 0 {
        lemma_retry_waits_indefinitely(events.skip(1), settings, once);
    }
}

/// A stopped pair stays stopped whatever arrives.
pub proof fn lemma_stopped_is_permanent(
    events: Seq<SupervisorEvent>,
    settings: Settings,
    once: bool,
)
    ensures
        spec_run(SupervisorState::Stopped, events, settings, once) == SupervisorState::Stopped,
    decreases events.len(),
{
    if events.len() > 0 {
        lemma_stopped_is_permanent(events.skip(1), settings, once);
    }
}

/// Ignore stops permanently and silently: under an ignore policy, the first
/// failed probe ends the pair without any report, and no later event revives
/// it.
pub proof fn lemma_ignore_stops_permanently(
    events: Seq<SupervisorEvent>,
    settings: Settings,
    once: bool,
)
    requires
        settings.on_missing == OnMissing::Ignore,
    ensures
        spec_step(SupervisorState::Waiting, SupervisorEvent::ProbeErr, settings, once) == (
            SupervisorState::Stopped,
            SupervisorAction::QuietStop,
        ),
        spec_run(
            spec_step(SupervisorState::Waiting, SupervisorEvent::ProbeErr, settings, once).0,
            events,
            settings,
            once,
        ) == SupervisorState::Stopped,
{
    lemma_stopped_is_permanent(events, settings, once);
}

} // verus!
