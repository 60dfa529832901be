use mission_crew::crew_operation::join;
use mission_crew::entities::{NewMissionModel, UpdateMissionModel};
use mission_crew::error::MissionError;
use mission_crew::mission_management::{add, edit, remove};
use mission_crew::mission_viewing::view_detail;
use mission_crew::rules::check_unmanned;
use mission_crew::store::MissionStore;

fn mission_store(crew: i32) -> MissionStore {
    let mut store = MissionStore::new();
    let model = NewMissionModel {
        name: "Test Mission".to_string(),
        description: Some("Test Description".to_string()),
    };
    add(&mut store, 1, model, 0).unwrap();
    for b in 0..crew {
        join(&mut store, 1, 100 + b).unwrap();
    }
    store
}

#[test]
fn test_add() {
    let mut store = MissionStore::new();
    let add_mission_model = NewMissionModel {
        name: "Test Mission".to_string(),
        description: Some("Test Description".to_string()),
    };
    let result = add(&mut store, 1, add_mission_model, 0).unwrap();
    assert_eq!(result, 1);
}

#[test]
fn test_edit_success() {
    let mut store = mission_store(0);
    let edit_model = UpdateMissionModel { name: None, description: Some("Test".to_string()) };
    let result = edit(&mut store, 1, 1, edit_model).unwrap();
    assert_eq!(result, 1);
}

#[test]
fn test_edit_failed() {
    let result = check_unmanned(13);
    assert!(result.is_err());
}

#[test]
fn test_remove_success() {
    let mut store = mission_store(0);
    let result = remove(&mut store, 1, 1).unwrap();
    assert_eq!(result, ());
}

#[test]
fn test_remove_failed() {
    let mut store = mission_store(9);
    let result = remove(&mut store, 1, 1);
    assert!(result.is_err());
}

#[test]
fn add_assigns_fresh_ids_and_opens() {
    let mut store = mission_store(0);
    let model = NewMissionModel { name: "Second".to_string(), description: None };
    assert_eq!(add(&mut store, 4, model, 77), Ok(2));
    let v = view_detail(&store, 2).unwrap();
    assert_eq!(v.chief_id, 4);
    assert_eq!(v.status, mission_crew::entities::MissionStatus::Open);
    assert_eq!(v.created_at, 77);
    assert_eq!(v.name, "Second");
}

#[test]
fn edit_keeps_unset_fields() {
    let mut store = mission_store(0);
    let patch = UpdateMissionModel { name: None, description: Some("Test".to_string()) };
    edit(&mut store, 1, 1, patch).unwrap();
    let v = view_detail(&store, 1).unwrap();
    assert_eq!(v.name, "Test Mission");
    assert_eq!(v.description, Some("Test".to_string()));
    let patch = UpdateMissionModel { name: Some("Renamed".to_string()), description: None };
    edit(&mut store, 1, 1, patch).unwrap();
    let v = view_detail(&store, 1).unwrap();
    assert_eq!(v.name, "Renamed");
    assert_eq!(v.description, Some("Test".to_string()));
}

#[test]
fn edit_and_remove_refused_with_any_crew() {
    let mut store = mission_store(1);
    let patch = UpdateMissionModel { name: Some("X".to_string()), description: None };
    assert_eq!(edit(&mut store, 1, 1, patch), Err(MissionError::HasActiveCrew));
    assert_eq!(remove(&mut store, 1, 1), Err(MissionError::HasActiveCrew));
    assert_eq!(view_detail(&store, 1).unwrap().name, "Test Mission");
    assert_eq!(
        MissionError::HasActiveCrew.to_string(),
        "Mission has active crew, cannot edit"
    );
}

#[test]
fn remove_deletes_the_mission() {
    let mut store = mission_store(0);
    assert_eq!(remove(&mut store, 1, 1), Ok(()));
    assert_eq!(view_detail(&store, 1), Err(MissionError::NotFound));
    assert_eq!(remove(&mut store, 1, 1), Err(MissionError::NotFound));
}

#[test]
fn only_the_chief_edits_or_removes() {
    let mut store = mission_store(0);
    let patch = UpdateMissionModel { name: Some("X".to_string()), description: None };
    assert_eq!(edit(&mut store, 2, 1, patch), Err(MissionError::Unauthorized));
    assert_eq!(remove(&mut store, 2, 1), Err(MissionError::Unauthorized));
    assert!(view_detail(&store, 1).is_ok());
}
