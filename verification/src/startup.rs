//! The order in which the server starts.
//!
//! Startup is a fixed sequence of steps, each of which reaches outside the
//! process: it reads the environment, a directory, the relational store or a
//! file. Whoever drives startup performs the outstanding step, reports how it
//! went, and is told what comes next. The first step that does not go as it
//! should ends the sequence for good, so a state is assembled only when every
//! step before it went well.

use crate::errors::AppError;
use vstd::prelude::*;

verus! {

/// One step of startup.
#[derive(Clone, Copy, Debug, PartialEq, Eq, Structural)]
pub enum StartupStep {
    /// Find the home directory, under which the server's root lies.
    ResolveRoot,
    /// Look whether an earlier run left a results directory behind.
    ProbeResults,
    /// Delete the results directory of the earlier run with all that it
    /// holds.
    ClearResults,
    /// Create the results directory, empty.
    CreateResults,
    /// Open the pool of connections to the relational store.
    ConnectStore,
    /// Switch the store to write-ahead logging.
    SetJournalMode,
    /// Relax the store's synchronous commit.
    SetSynchronous,
    /// Keep the store's temporary tables in memory.
    SetTempStore,
    /// Read all cohort rows from the store.
    FetchCohorts,
    /// Load the feature matrix of every cohort from its files.
    LoadCohortData,
    /// Read all feature rows from the store.
    FetchFeatures,
    /// Build the object-storage client for the configured region.
    ConnectObjectStorage,
    /// Read and decode the fit-quality reference file.
    LoadFitQuality,
    /// Build the state from all that was loaded.
    Assemble,
}

/// How the outstanding step went.
#[derive(Clone, Copy, Debug, PartialEq, Eq, Structural)]
pub enum StartupEvent {
    /// The step was carried out.
    Completed,
    /// The probe found a results directory.
    ResultsPresent,
    /// The probe found no results directory.
    ResultsAbsent,
    /// The step could not be carried out.
    Failed,
    /// The step was carried out, and what it read is not what it should be.
    Malformed,
}

/// Where startup stands.
#[derive(Clone, Copy, Debug, PartialEq, Eq, Structural)]
pub enum StartupPhase {
    /// The step is to be performed next.
    Pending(StartupStep),
    /// Every step went well: the state may be handed out.
    Ready,
    /// A step went wrong: there is no state, and there will be none.
    Failed(AppError),
}

/// The step that follows `step` once `step` is reported completed; after the
/// last step startup is done. The probe is answered by what it found, never
/// by completion, so nothing follows it in this way.
pub open spec fn following(step: StartupStep) -> Option<StartupPhase> {
    match step {
        StartupStep::ResolveRoot => Some(StartupPhase::Pending(StartupStep::ProbeResults)),
        StartupStep::ProbeResults => None,
        StartupStep::ClearResults => Some(StartupPhase::Pending(StartupStep::CreateResults)),
        StartupStep::CreateResults => Some(StartupPhase::Pending(StartupStep::ConnectStore)),
        StartupStep::ConnectStore => Some(StartupPhase::Pending(StartupStep::SetJournalMode)),
        StartupStep::SetJournalMode => Some(StartupPhase::Pending(StartupStep::SetSynchronous)),
        StartupStep::SetSynchronous => Some(StartupPhase::Pending(StartupStep::SetTempStore)),
        StartupStep::SetTempStore => Some(StartupPhase::Pending(StartupStep::FetchCohorts)),
        StartupStep::FetchCohorts => Some(StartupPhase::Pending(StartupStep::LoadCohortData)),
        StartupStep::LoadCohortData => Some(StartupPhase::Pending(StartupStep::FetchFeatures)),
        StartupStep::FetchFeatures => Some(
            StartupPhase::Pending(StartupStep::ConnectObjectStorage),
        ),
        StartupStep::ConnectObjectStorage => Some(
            StartupPhase::Pending(StartupStep::LoadFitQuality),
        ),
        StartupStep::LoadFitQuality => Some(StartupPhase::Pending(StartupStep::Assemble)),
        StartupStep::Assemble => Some(StartupPhase::Ready),
    }
}

/// The step that follows the probe, by what the probe found: a results
/// directory that is there is cleared first, one that is not is created.
/// Nothing for a step that is not the probe, or an event that is not a
/// finding.
pub open spec fn after_probe(step: StartupStep, event: StartupEvent) -> Option<StartupPhase> {
    match (step, event) {
        (StartupStep::ProbeResults, StartupEvent::ResultsPresent) => Some(
            StartupPhase::Pending(StartupStep::ClearResults),
        ),
        (StartupStep::ProbeResults, StartupEvent::ResultsAbsent) => Some(
            StartupPhase::Pending(StartupStep::CreateResults),
        ),
        _ => None,
    }
}

/// Where startup goes when `step` went well, as `event` says; nothing when
/// `event` does not report that.
pub open spec fn advance(step: StartupStep, event: StartupEvent) -> Option<StartupPhase> {
    match event {
        StartupEvent::Completed => following(step),
        _ => after_probe(step, event),
    }
}

/// The error that startup ends with when `step` did not go well.
pub open spec fn failure_of(step: StartupStep, event: StartupEvent) -> AppError {
    match step {
        StartupStep::ResolveRoot | StartupStep::ConnectObjectStorage => AppError::EnvironmentError,
        StartupStep::ProbeResults
        | StartupStep::ClearResults
        | StartupStep::CreateResults
        | StartupStep::ConnectStore
        | StartupStep::SetJournalMode
        | StartupStep::SetSynchronous
        | StartupStep::SetTempStore => AppError::StorageError,
        StartupStep::FetchCohorts | StartupStep::LoadCohortData | StartupStep::FetchFeatures => {
            if event == StartupEvent::Malformed {
                AppError::DataIntegrityError
            } else {
                AppError::StorageError
            }
        },
        StartupStep::LoadFitQuality | StartupStep::Assemble => AppError::DataIntegrityError,
    }
}

/// Where startup stands after `event` was reported in `phase`.
pub open spec fn next_phase(phase: StartupPhase, event: StartupEvent) -> StartupPhase {
    match phase {
        StartupPhase::Pending(step) => match advance(step, event) {
            Some(next) => next,
            None => StartupPhase::Failed(failure_of(step, event)),
        },
        StartupPhase::Ready => StartupPhase::Ready,
        StartupPhase::Failed(e) => StartupPhase::Failed(e),
    }
}

impl StartupStep {
    /// The step that follows this one once it is reported completed. The
    /// probe has no such successor: what follows it depends on what it found.
    pub fn successor(self) -> (next: Option<StartupPhase>)
        ensures
            next == following(self),
    {
        match self {
            StartupStep::ResolveRoot => Some(StartupPhase::Pending(StartupStep::ProbeResults)),
            StartupStep::ProbeResults => None,
            StartupStep::ClearResults => Some(StartupPhase::Pending(StartupStep::CreateResults)),
            StartupStep::CreateResults => Some(StartupPhase::Pending(StartupStep::ConnectStore)),
            StartupStep::ConnectStore => Some(StartupPhase::Pending(StartupStep::SetJournalMode)),
            StartupStep::SetJournalMode => Some(StartupPhase::Pending(StartupStep::SetSynchronous)),
            StartupStep::SetSynchronous => Some(StartupPhase::Pending(StartupStep::SetTempStore)),
            StartupStep::SetTempStore => Some(StartupPhase::Pending(StartupStep::FetchCohorts)),
            StartupStep::FetchCohorts => Some(StartupPhase::Pending(StartupStep::LoadCohortData)),
            StartupStep::LoadCohortData => Some(StartupPhase::Pending(StartupStep::FetchFeatures)),
            StartupStep::FetchFeatures => Some(
                StartupPhase::Pending(StartupStep::ConnectObjectStorage),
            ),
            StartupStep::ConnectObjectStorage => Some(
                StartupPhase::Pending(StartupStep::LoadFitQuality),
            ),
            StartupStep::LoadFitQuality => Some(StartupPhase::Pending(StartupStep::Assemble)),
            StartupStep::Assemble => Some(StartupPhase::Ready),
        }
    }

    /// The step that follows this one by what the probe found. Only the
    /// probe has such a successor, and only a finding gives it.
    pub fn successor_found(self, event: StartupEvent) -> (next: Option<StartupPhase>)
        ensures
            next == after_probe(self, event),
    {
        match (self, event) {
            (StartupStep::ProbeResults, StartupEvent::ResultsPresent) => Some(
                StartupPhase::Pending(StartupStep::ClearResults),
            ),
            (StartupStep::ProbeResults, StartupEvent::ResultsAbsent) => Some(
                StartupPhase::Pending(StartupStep::CreateResults),
            ),
            _ => None,
        }
    }

    /// The error that startup ends with when this step did not go well.
    pub fn failure(self, event: StartupEvent) -> (error: AppError)
        ensures
            error == failure_of(self, event),
    {
        match self {
            StartupStep::ResolveRoot | StartupStep::ConnectObjectStorage => {
                AppError::EnvironmentError
            },
            StartupStep::FetchCohorts | StartupStep::LoadCohortData | StartupStep::FetchFeatures => {
                match event {
                    StartupEvent::Malformed => AppError::DataIntegrityError,
                    _ => AppError::StorageError,
                }
            },
            StartupStep::LoadFitQuality | StartupStep::Assemble => AppError::DataIntegrityError,
            _ => AppError::StorageError,
        }
    }
}

impl StartupPhase {
    /// Where startup begins.
    pub fn begin() -> (phase: StartupPhase)
        ensures
            phase == StartupPhase::Pending(StartupStep::ResolveRoot),
    {
        StartupPhase::Pending(StartupStep::ResolveRoot)
    }

    /// The step that is to be performed next, if startup has not ended.
    pub fn outstanding(&self) -> (step: Option<StartupStep>)
        ensures
            step == match *self {
                StartupPhase::Pending(s) => Some(s),
                _ => None,
            },
    {
        match self {
            StartupPhase::Pending(s) => Some(*s),
            _ => None,
        }
    }

    /// Where startup stands once `event` was reported for the outstanding
    /// step. An event that does not answer the outstanding step counts as
    /// that step's failure. Once startup has ended, events change nothing.
    pub fn step(self, event: StartupEvent) -> (next: StartupPhase)
        ensures
            next == next_phase(self, event),
    {
        match self {
            StartupPhase::Pending(step) => {
                let next = match event {
                    StartupEvent::Completed => step.successor(),
                    _ => step.successor_found(event),
                };
                match next {
                    Some(phase) => phase,
                    None => StartupPhase::Failed(step.failure(event)),
                }
            },
            StartupPhase::Ready => StartupPhase::Ready,
            StartupPhase::Failed(e) => StartupPhase::Failed(e),
        }
    }
}

/// Where startup stands after the first `n` of `events` were reported, one
/// for each step in turn.
pub open spec fn phase_after(events: Seq<StartupEvent>, n: nat) -> StartupPhase
    decreases n,
{
    if n == 0 {
        StartupPhase::Pending(StartupStep::ResolveRoot)
    } else {
        next_phase(phase_after(events, (n - 1) as nat), events[n - 1])
    }
}

/// The first `n` of `events` are those of a start that goes well, where
/// `probe` is what the probe for the results directory reported.
pub open spec fn went_well(events: Seq<StartupEvent>, probe: StartupEvent, n: int) -> bool {
    &&& n <= events.len()
    &&& forall|i: int|
        0 <= i < n ==> #[trigger] events[i] == if i == 1 {
            probe
        } else {
            StartupEvent::Completed
        }
}

/// The events begin with those of a start that finds no results directory
/// and goes well to the end: thirteen steps.
pub open spec fn fresh_start(events: Seq<StartupEvent>) -> bool {
    went_well(events, StartupEvent::ResultsAbsent, 13)
}

/// The events begin with those of a start that finds the results directory
/// of an earlier run and goes well to the end: fourteen steps.
pub open spec fn recovering_start(events: Seq<StartupEvent>) -> bool {
    went_well(events, StartupEvent::ResultsPresent, 14)
}

/// The place of `step` in a start that finds no results directory.
spec fn fresh_index(step: StartupStep) -> int {
    match step {
        StartupStep::ResolveRoot => 0,
        StartupStep::ProbeResults => 1,
        StartupStep::ClearResults => -1,
        StartupStep::CreateResults => 2,
        StartupStep::ConnectStore => 3,
        StartupStep::SetJournalMode => 4,
        StartupStep::SetSynchronous => 5,
        StartupStep::SetTempStore => 6,
        StartupStep::FetchCohorts => 7,
        StartupStep::LoadCohortData => 8,
        StartupStep::FetchFeatures => 9,
        StartupStep::ConnectObjectStorage => 10,
        StartupStep::LoadFitQuality => 11,
        StartupStep::Assemble => 12,
    }
}

/// The place of `step` in a start that finds a results directory.
spec fn recovering_index(step: StartupStep) -> int {
    match step {
        StartupStep::ResolveRoot => 0,
        StartupStep::ProbeResults => 1,
        StartupStep::ClearResults => 2,
        _ => fresh_index(step) + 1,
    }
}

/// Every phase that is reached without a failure is reached along one of the
/// two ways in which a start goes well.
proof fn lemma_phase_is_on_a_good_way(events: Seq<StartupEvent>, n: nat)
    requires
        n <= events.len(),
    ensures
        match phase_after(events, n) {
            StartupPhase::Pending(step) => {
                ||| n == fresh_index(step) && went_well(events, StartupEvent::ResultsAbsent, n as int)
                ||| n == recovering_index(step) && went_well(
                    events,
                    StartupEvent::ResultsPresent,
                    n as int,
                )
            },
            StartupPhase::Ready => {
                ||| n >= 13 && fresh_start(events)
                ||| n >= 14 && recovering_start(events)
            },
            StartupPhase::Failed(_) => true,
        },
    decreases n,
{
    if n > 0 {
        lemma_phase_is_on_a_good_way(events, (n - 1) as nat);
    }
}

/// A start that goes well is at the step that its way prescribes.
proof fn lemma_good_way_reaches(events: Seq<StartupEvent>, probe: StartupEvent, n: nat)
    requires
        probe == StartupEvent::ResultsAbsent || probe == StartupEvent::ResultsPresent,
        went_well(events, probe, n as int),
        n <= if probe == StartupEvent::ResultsAbsent {
            13int
        } else {
            14int
        },
    ensures
        match phase_after(events, n) {
            StartupPhase::Pending(step) => n == if probe == StartupEvent::ResultsAbsent {
                fresh_index(step)
            } else {
                recovering_index(step)
            },
            StartupPhase::Ready => n == if probe == StartupEvent::ResultsAbsent {
                13int
            } else {
                14int
            },
            StartupPhase::Failed(_) => false,
        },
    decreases n,
{
    if n > 0 {
        lemma_good_way_reaches(events, probe, (n - 1) as nat);
    }
}

/// Once startup has ended, with a state or with an error, nothing that is
/// reported later changes how it ended.
pub proof fn lemma_the_end_is_final(events: Seq<StartupEvent>, n: nat, m: nat)
    requires
        n <= m,
        !(phase_after(events, n) is Pending),
    ensures
        phase_after(events, m) == phase_after(events, n),
    decreases m,
{
    if n < m {
        lemma_the_end_is_final(events, n, (m - 1) as nat);
    }
}

/// Startup is all or nothing: it ends with a state exactly when every step,
/// in order, went well. There are two such ways, one for a start that finds
/// no results directory and one for a start that finds one and clears it.
pub proof fn lemma_ready_exactly_when_every_step_went_well(events: Seq<StartupEvent>)
    ensures
        phase_after(events, events.len()) == StartupPhase::Ready <==> fresh_start(events)
            || recovering_start(events),
{
    lemma_phase_is_on_a_good_way(events, events.len());
    if fresh_start(events) {
        lemma_good_way_reaches(events, StartupEvent::ResultsAbsent, 13);
        lemma_the_end_is_final(events, 13, events.len());
    }
    if recovering_start(events) {
        lemma_good_way_reaches(events, StartupEvent::ResultsPresent, 14);
        lemma_the_end_is_final(events, 14, events.len());
    }
}

/// The results directory is deleted only right after the probe has found
/// one, and is created only right after the probe has found none or the old
/// one has been deleted.
pub proof fn lemma_results_are_cleared_before_created(phase: StartupPhase, event: StartupEvent)
    ensures
        next_phase(phase, event) == StartupPhase::Pending(StartupStep::ClearResults) <==> phase
            == StartupPhase::Pending(StartupStep::ProbeResults) && event
            == StartupEvent::ResultsPresent,
        next_phase(phase, event) == StartupPhase::Pending(StartupStep::CreateResults) <==> (phase
            == StartupPhase::Pending(StartupStep::ProbeResults) && event
            == StartupEvent::ResultsAbsent) || (phase == StartupPhase::Pending(
            StartupStep::ClearResults,
        ) && event == StartupEvent::Completed),
{
}

/// A start that finds the results directory of an earlier run and ends with a
/// state has deleted that directory as its third step and created it anew as
/// its fourth.
pub proof fn lemma_recovering_start_clears_results(events: Seq<StartupEvent>)
    requires
        recovering_start(events),
    ensures
        phase_after(events, 2) == StartupPhase::Pending(StartupStep::ClearResults),
        phase_after(events, 3) == StartupPhase::Pending(StartupStep::CreateResults),
        phase_after(events, events.len()) == StartupPhase::Ready,
{
    lemma_ready_exactly_when_every_step_went_well(events);
    lemma_good_way_reaches(events, StartupEvent::ResultsPresent, 2);
    lemma_good_way_reaches(events, StartupEvent::ResultsPresent, 3);
}

} // verus!
