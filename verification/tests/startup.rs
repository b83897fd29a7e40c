use webgwas_backend::errors::AppError;
use webgwas_backend::startup::{StartupEvent, StartupPhase, StartupStep};

fn run(events: &[StartupEvent]) -> StartupPhase {
    let mut phase = StartupPhase::begin();
    for event in events {
        phase = phase.step(*event);
    }
    phase
}

fn steps_taken(events: &[StartupEvent]) -> Vec<StartupStep> {
    let mut phase = StartupPhase::begin();
    let mut steps = Vec::new();
    for event in events {
        if let Some(step) = phase.outstanding() {
            steps.push(step);
        }
        phase = phase.step(*event);
    }
    steps
}

fn fresh_start() -> Vec<StartupEvent> {
    let mut events = vec![StartupEvent::Completed, StartupEvent::ResultsAbsent];
    events.extend(std::iter::repeat(StartupEvent::Completed).take(11));
    events
}

fn recovering_start() -> Vec<StartupEvent> {
    let mut events = vec![StartupEvent::Completed, StartupEvent::ResultsPresent];
    events.extend(std::iter::repeat(StartupEvent::Completed).take(12));
    events
}

#[test]
fn startup_begins_with_the_root() {
    assert_eq!(StartupPhase::begin(), StartupPhase::Pending(StartupStep::ResolveRoot));
    assert_eq!(StartupPhase::begin().outstanding(), Some(StartupStep::ResolveRoot));
}

#[test]
fn fresh_start_takes_every_step_in_order() {
    let events = fresh_start();
    assert_eq!(events.len(), 13);
    assert_eq!(
        steps_taken(&events),
        vec![
            StartupStep::ResolveRoot,
            StartupStep::ProbeResults,
            StartupStep::CreateResults,
            StartupStep::ConnectStore,
            StartupStep::SetJournalMode,
            StartupStep::SetSynchronous,
            StartupStep::SetTempStore,
            StartupStep::FetchCohorts,
            StartupStep::LoadCohortData,
            StartupStep::FetchFeatures,
            StartupStep::ConnectObjectStorage,
            StartupStep::LoadFitQuality,
            StartupStep::Assemble,
        ]
    );
    assert_eq!(run(&events), StartupPhase::Ready);
    assert_eq!(run(&events[..12]), StartupPhase::Pending(StartupStep::Assemble));
}

#[test]
fn restart_clears_the_results_before_it_creates_them() {
    let events = recovering_start();
    assert_eq!(events.len(), 14);
    let steps = steps_taken(&events);
    assert_eq!(
        &steps[..4],
        &[
            StartupStep::ResolveRoot,
            StartupStep::ProbeResults,
            StartupStep::ClearResults,
            StartupStep::CreateResults,
        ]
    );
    assert_eq!(steps.iter().filter(|s| **s == StartupStep::ClearResults).count(), 1);
    assert_eq!(steps.iter().filter(|s| **s == StartupStep::CreateResults).count(), 1);
    assert_eq!(steps[13], StartupStep::Assemble);
    assert_eq!(run(&events), StartupPhase::Ready);
}

#[test]
fn missing_home_is_an_environment_error() {
    assert_eq!(run(&[StartupEvent::Failed]), StartupPhase::Failed(AppError::EnvironmentError));
}

#[test]
fn failed_cleanup_is_a_storage_error() {
    let events = [StartupEvent::Completed, StartupEvent::ResultsPresent, StartupEvent::Failed];
    assert_eq!(run(&events), StartupPhase::Failed(AppError::StorageError));
}

#[test]
fn failed_probe_is_a_storage_error() {
    let events = [StartupEvent::Completed, StartupEvent::Failed];
    assert_eq!(run(&events), StartupPhase::Failed(AppError::StorageError));
}

#[test]
fn failed_connection_is_a_storage_error() {
    let events = [
        StartupEvent::Completed,
        StartupEvent::ResultsAbsent,
        StartupEvent::Completed,
        StartupEvent::Failed,
    ];
    assert_eq!(run(&events), StartupPhase::Failed(AppError::StorageError));
}

#[test]
fn mismatched_rows_are_a_data_integrity_error() {
    let mut events = fresh_start();
    events.truncate(7);
    events.push(StartupEvent::Malformed);
    assert_eq!(run(&events), StartupPhase::Failed(AppError::DataIntegrityError));
    events.pop();
    events.push(StartupEvent::Failed);
    assert_eq!(run(&events), StartupPhase::Failed(AppError::StorageError));
}

#[test]
fn unreadable_fit_quality_file_is_a_data_integrity_error() {
    let mut events = fresh_start();
    events.truncate(11);
    assert_eq!(run(&events), StartupPhase::Pending(StartupStep::LoadFitQuality));
    events.push(StartupEvent::Failed);
    assert_eq!(run(&events), StartupPhase::Failed(AppError::DataIntegrityError));
}

#[test]
fn refused_assembly_is_a_data_integrity_error() {
    let mut events = fresh_start();
    events.truncate(12);
    events.push(StartupEvent::Malformed);
    assert_eq!(run(&events), StartupPhase::Failed(AppError::DataIntegrityError));
}

#[test]
fn every_step_fails_with_its_own_kind() {
    let table = [
        (StartupStep::ResolveRoot, AppError::EnvironmentError, AppError::EnvironmentError),
        (StartupStep::ProbeResults, AppError::StorageError, AppError::StorageError),
        (StartupStep::ClearResults, AppError::StorageError, AppError::StorageError),
        (StartupStep::CreateResults, AppError::StorageError, AppError::StorageError),
        (StartupStep::ConnectStore, AppError::StorageError, AppError::StorageError),
        (StartupStep::SetJournalMode, AppError::StorageError, AppError::StorageError),
        (StartupStep::SetSynchronous, AppError::StorageError, AppError::StorageError),
        (StartupStep::SetTempStore, AppError::StorageError, AppError::StorageError),
        (StartupStep::FetchCohorts, AppError::StorageError, AppError::DataIntegrityError),
        (StartupStep::LoadCohortData, AppError::StorageError, AppError::DataIntegrityError),
        (StartupStep::FetchFeatures, AppError::StorageError, AppError::DataIntegrityError),
        (StartupStep::ConnectObjectStorage, AppError::EnvironmentError, AppError::EnvironmentError),
        (StartupStep::LoadFitQuality, AppError::DataIntegrityError, AppError::DataIntegrityError),
        (StartupStep::Assemble, AppError::DataIntegrityError, AppError::DataIntegrityError),
    ];
    for (step, on_failure, on_malformed) in table {
        assert_eq!(step.failure(StartupEvent::Failed), on_failure);
        assert_eq!(step.failure(StartupEvent::Malformed), on_malformed);
        assert_eq!(
            StartupPhase::Pending(step).step(StartupEvent::Failed),
            StartupPhase::Failed(on_failure)
        );
        assert_eq!(
            StartupPhase::Pending(step).step(StartupEvent::Malformed),
            StartupPhase::Failed(on_malformed)
        );
    }
}

#[test]
fn an_event_that_does_not_answer_the_step_fails_it() {
    assert_eq!(
        StartupPhase::Pending(StartupStep::ProbeResults).step(StartupEvent::Completed),
        StartupPhase::Failed(AppError::StorageError)
    );
    assert_eq!(
        StartupPhase::Pending(StartupStep::ConnectStore).step(StartupEvent::ResultsAbsent),
        StartupPhase::Failed(AppError::StorageError)
    );
    assert_eq!(
        StartupPhase::Pending(StartupStep::ResolveRoot).step(StartupEvent::ResultsPresent),
        StartupPhase::Failed(AppError::EnvironmentError)
    );
}

#[test]
fn the_end_is_final() {
    let all = [
        StartupEvent::Completed,
        StartupEvent::ResultsPresent,
        StartupEvent::ResultsAbsent,
        StartupEvent::Failed,
        StartupEvent::Malformed,
    ];
    for event in all {
        assert_eq!(StartupPhase::Ready.step(event), StartupPhase::Ready);
        assert_eq!(
            StartupPhase::Failed(AppError::StorageError).step(event),
            StartupPhase::Failed(AppError::StorageError)
        );
    }
    assert_eq!(StartupPhase::Ready.outstanding(), None);
    assert_eq!(StartupPhase::Failed(AppError::StorageError).outstanding(), None);
}

#[test]
fn successor_of_each_step() {
    assert_eq!(
        StartupStep::ResolveRoot.successor(),
        Some(StartupPhase::Pending(StartupStep::ProbeResults))
    );
    assert_eq!(
        StartupStep::ClearResults.successor(),
        Some(StartupPhase::Pending(StartupStep::CreateResults))
    );
    assert_eq!(
        StartupStep::SetTempStore.successor(),
        Some(StartupPhase::Pending(StartupStep::FetchCohorts))
    );
    assert_eq!(StartupStep::Assemble.successor(), Some(StartupPhase::Ready));
}

#[test]
fn the_probe_is_followed_by_what_it_found() {
    assert_eq!(StartupStep::ProbeResults.successor(), None);
    assert_eq!(
        StartupStep::ProbeResults.successor_found(StartupEvent::ResultsPresent),
        Some(StartupPhase::Pending(StartupStep::ClearResults))
    );
    assert_eq!(
        StartupStep::ProbeResults.successor_found(StartupEvent::ResultsAbsent),
        Some(StartupPhase::Pending(StartupStep::CreateResults))
    );
    assert_eq!(StartupStep::ProbeResults.successor_found(StartupEvent::Completed), None);
    assert_eq!(StartupStep::ProbeResults.successor_found(StartupEvent::Failed), None);
    assert_eq!(StartupStep::ClearResults.successor_found(StartupEvent::ResultsAbsent), None);
    assert_eq!(StartupStep::ConnectStore.successor_found(StartupEvent::ResultsPresent), None);
}
