use mission_crew::entities::{CrewMembership, NewMissionModel, MAX_CREW_PER_MISSION};
use mission_crew::error::MissionError;
use mission_crew::mission_management::add;
use mission_crew::mission_viewing::view_detail;
use mission_crew::repositories::{CrewOperationRepository, TransactionProvider};
use mission_crew::store::{CrewCommand, MissionStore};

fn one_mission() -> MissionStore {
    let mut store = MissionStore::new();
    let model = NewMissionModel { name: "M".to_string(), description: None };
    add(&mut store, 1, model, 0).unwrap();
    store
}

fn member(brawler_id: i32) -> CrewMembership {
    CrewMembership { mission_id: 1, brawler_id }
}

#[test]
fn port_insert_and_delete() {
    let mut store = one_mission();
    assert_eq!(CrewOperationRepository::join(&mut store, member(1)), Ok(()));
    assert_eq!(CrewOperationRepository::join(&mut store, member(1)), Err(MissionError::Conflict));
    assert_eq!(store.count_crew(1), 1);
    assert_eq!(CrewOperationRepository::leave(&mut store, member(1)), Ok(()));
    assert_eq!(CrewOperationRepository::leave(&mut store, member(1)), Err(MissionError::NotFound));
    assert_eq!(store.count_crew(1), 0);
}

#[test]
fn port_enforces_the_ceiling() {
    let mut store = one_mission();
    for b in 0..MAX_CREW_PER_MISSION as i32 {
        assert_eq!(store.insert_crew(member(b)), Ok(()));
    }
    assert_eq!(store.insert_crew(member(99)), Err(MissionError::MissionFull));
    assert_eq!(store.count_crew(1), MAX_CREW_PER_MISSION);
}

#[test]
fn port_transaction_rolls_back_on_failure() {
    let mut store = one_mission();
    let ops = vec![
        CrewCommand::Insert(member(1)),
        CrewCommand::Insert(member(2)),
        CrewCommand::Insert(member(1)),
    ];
    assert_eq!(store.transaction(&ops), Err(MissionError::Conflict));
    assert_eq!(view_detail(&store, 1).unwrap().crew_count, 0);
    assert_eq!(store.transaction(&ops[..2].to_vec()), Ok(()));
    assert_eq!(view_detail(&store, 1).unwrap().crew_count, 2);
}

#[test]
fn store_lookup_and_status() {
    let mut store = one_mission();
    assert_eq!(store.len(), 1);
    assert_eq!(store.row(0).id, 1);
    assert!(store.find(2).is_none());
    let found = store.find(1).unwrap();
    assert_eq!(found.name, "M");
    assert_eq!(
        store.set_status(1, mission_crew::entities::MissionStatus::Failed),
        Ok(1)
    );
    assert_eq!(store.find(1).unwrap().status, mission_crew::entities::MissionStatus::Failed);
    assert_eq!(
        store.set_status(5, mission_crew::entities::MissionStatus::Failed),
        Err(MissionError::NotFound)
    );
}
