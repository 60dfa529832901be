use mission_crew::crew_operation::join;
use mission_crew::entities::{MissionEntity, MissionStatus, NewMissionModel, MAX_CREW_PER_MISSION};
use mission_crew::error::{ErrorKind, MissionError};
use mission_crew::mission_management::add;
use mission_crew::mission_operation::{in_progress, to_completed, to_failed};
use mission_crew::mission_viewing::view_detail;
use mission_crew::rules::{check_transition, next_status, Transition};
use mission_crew::store::MissionStore;

/// A store holding mission 1 of chief 1 with `crew` members, moved to `status`.
fn mission_store(status: MissionStatus, crew: i32) -> MissionStore {
    let mut store = MissionStore::new();
    let model = NewMissionModel { name: "Test Mission".to_string(), description: None };
    add(&mut store, 1, model, 0).unwrap();
    for b in 0..crew {
        join(&mut store, 1, 100 + b).unwrap();
    }
    match status {
        MissionStatus::Open => {}
        MissionStatus::InProgress => {
            in_progress(&mut store, 1, 1).unwrap();
        }
        MissionStatus::Completed => {
            in_progress(&mut store, 1, 1).unwrap();
            to_completed(&mut store, 1, 1).unwrap();
        }
        MissionStatus::Failed => {
            in_progress(&mut store, 1, 1).unwrap();
            to_failed(&mut store, 1, 1).unwrap();
        }
    }
    store
}

fn mission(status: MissionStatus) -> MissionEntity {
    MissionEntity {
        id: 1,
        name: "Test Mission".to_string(),
        description: None,
        status,
        chief_id: 1,
        created_at: 0,
        updated_at: 0,
    }
}

#[test]
fn test_in_progress() {
    let mut store = mission_store(MissionStatus::Open, 2);
    let result = in_progress(&mut store, 1, 1);
    assert!(result.is_ok())
}

#[test]
fn test_in_progress_crew_max() {
    let result = check_transition(
        &mission(MissionStatus::Open),
        1,
        MAX_CREW_PER_MISSION + 1,
        Transition::Start,
    );
    assert!(result.is_err());
}

#[test]
fn test_in_progress_wrong_status() {
    let mut store = mission_store(MissionStatus::Completed, 1);
    let result = in_progress(&mut store, 1, 1);
    assert!(result.is_err());
}

#[test]
fn test_in_progress_wrong_chief_id() {
    let mut store = mission_store(MissionStatus::Open, 1);
    let result = in_progress(&mut store, 10, 1);
    assert!(result.is_err());
}

#[test]
fn test_to_completed() {
    let mut store = mission_store(MissionStatus::InProgress, 0);
    let result = to_completed(&mut store, 1, 1);
    assert!(result.is_ok());
}

#[test]
fn test_to_completed_wrong_status() {
    let mut store = mission_store(MissionStatus::Open, 0);
    let result = to_completed(&mut store, 1, 1);
    assert!(result.is_err());
}

#[test]
fn test_to_completed_wrong_chief_id() {
    let mut store = mission_store(MissionStatus::InProgress, 0);
    let result = to_completed(&mut store, 10, 1);
    assert!(result.is_err());
}

#[test]
fn test_to_failed() {
    let mut store = mission_store(MissionStatus::InProgress, 0);
    let result = to_failed(&mut store, 1, 1);
    assert!(result.is_ok());
}

#[test]
fn test_to_failed_wrong_status() {
    let mut store = mission_store(MissionStatus::Completed, 0);
    let result = to_failed(&mut store, 1, 1);
    assert!(result.is_err());
}

#[test]
fn test_to_failed_wrong_chief_id() {
    let mut store = mission_store(MissionStatus::InProgress, 0);
    let result = to_failed(&mut store, 10, 1);
    assert!(result.is_err());
}

#[test]
fn completing_reports_the_id_and_new_status() {
    let mut store = mission_store(MissionStatus::InProgress, 0);
    assert_eq!(to_completed(&mut store, 1, 1), Ok(1));
    assert_eq!(view_detail(&store, 1).unwrap().status, MissionStatus::Completed);
}

#[test]
fn full_mission_still_starts_but_refuses_joins() {
    let mut store = mission_store(MissionStatus::Open, MAX_CREW_PER_MISSION as i32);
    assert_eq!(join(&mut store, 1, 1), Err(MissionError::MissionFull));
    assert_eq!(in_progress(&mut store, 1, 1), Ok(1));
    assert_eq!(view_detail(&store, 1).unwrap().status, MissionStatus::InProgress);
}

#[test]
fn over_full_crew_cannot_start() {
    let result = check_transition(&mission(MissionStatus::Open), 1, 11, Transition::Start);
    assert_eq!(result, Err(MissionError::CrewExceedsCapacity));
    assert_eq!(MissionError::CrewExceedsCapacity.kind(), ErrorKind::CapacityExceeded);
    let at_max = check_transition(&mission(MissionStatus::Open), 1, 10, Transition::Start);
    assert_eq!(at_max, Ok(MissionStatus::InProgress));
}

#[test]
fn wrong_chief_is_unauthorized_for_every_transition() {
    let mut open = mission_store(MissionStatus::Open, 0);
    assert_eq!(in_progress(&mut open, 10, 1), Err(MissionError::Unauthorized));
    let mut started = mission_store(MissionStatus::InProgress, 0);
    assert_eq!(to_completed(&mut started, 10, 1), Err(MissionError::Unauthorized));
    assert_eq!(to_failed(&mut started, 10, 1), Err(MissionError::Unauthorized));
    assert_eq!(view_detail(&started, 1).unwrap().status, MissionStatus::InProgress);
    assert_eq!(MissionError::Unauthorized.kind(), ErrorKind::Unauthorized);
}

#[test]
fn status_error_wins_over_wrong_chief() {
    let mut open = mission_store(MissionStatus::Open, 0);
    assert_eq!(to_completed(&mut open, 10, 1), Err(MissionError::NotCompletable));
    assert_eq!(to_failed(&mut open, 10, 1), Err(MissionError::NotFailable));
    let mut done = mission_store(MissionStatus::Completed, 0);
    assert_eq!(in_progress(&mut done, 10, 1), Err(MissionError::NotStartable));
    assert_eq!(MissionError::NotStartable.kind(), ErrorKind::InvalidTransition);
}

#[test]
fn state_machine_transitions() {
    let (open, in_prog, completed, failed) = (
        MissionStatus::Open,
        MissionStatus::InProgress,
        MissionStatus::Completed,
        MissionStatus::Failed,
    );
    let (start, complete, fail) = (Transition::Start, Transition::Complete, Transition::Fail);
    assert_eq!(next_status(open, start), Some(in_prog));
    assert_eq!(next_status(in_prog, complete), Some(completed));
    assert_eq!(next_status(in_prog, fail), Some(failed));
    assert_eq!(next_status(open, complete), None);
    assert_eq!(next_status(open, fail), None);
    assert_eq!(next_status(in_prog, start), None);
    for t in [start, complete, fail] {
        assert_eq!(next_status(completed, t), None);
        assert_eq!(next_status(failed, t), None);
    }
}

#[test]
fn terminal_missions_refuse_every_operation() {
    for status in [MissionStatus::Completed, MissionStatus::Failed] {
        let mut store = mission_store(status, 0);
        assert!(in_progress(&mut store, 1, 1).is_err());
        assert!(to_completed(&mut store, 1, 1).is_err());
        assert!(to_failed(&mut store, 1, 1).is_err());
        assert_eq!(view_detail(&store, 1).unwrap().status, status);
    }
}

#[test]
fn unknown_mission_is_not_found() {
    let mut store = mission_store(MissionStatus::Open, 0);
    assert_eq!(in_progress(&mut store, 1, 2), Err(MissionError::NotFound));
    assert_eq!(MissionError::NotFound.kind(), ErrorKind::NotFound);
    assert_eq!(MissionError::NotFound.message(), "Mission not found");
}
