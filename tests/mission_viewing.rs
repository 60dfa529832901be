use mission_crew::crew_operation::join;
use mission_crew::entities::{MissionFilter, MissionModel, MissionStatus, NewMissionModel};
use mission_crew::mission_management::{add, remove};
use mission_crew::mission_operation::in_progress;
use mission_crew::mission_viewing::{get, view_detail};
use mission_crew::store::MissionStore;

#[test]
fn test_view_details() {
    let now: i64 = 1_700_000_000;
    let mut store = MissionStore::new();
    for i in 1..=98 {
        let model = NewMissionModel { name: "Test".to_string(), description: None };
        assert_eq!(add(&mut store, 1, model, now), Ok(i));
    }
    join(&mut store, 98, 1).unwrap();
    join(&mut store, 98, 2).unwrap();
    let want = MissionModel {
        id: 98,
        name: "Test".to_string(),
        description: None,
        created_at: now,
        updated_at: now,
        chief_id: 1,
        crew_count: 2,
        status: MissionStatus::Open,
    };
    let result = view_detail(&store, 98).unwrap();
    assert_eq!(result, want)
}

#[test]
fn test_get() {
    let mut store = MissionStore::new();
    let model = NewMissionModel { name: "Test 1".to_string(), description: None };
    add(&mut store, 1, model, 0).unwrap();
    join(&mut store, 1, 1).unwrap();
    join(&mut store, 1, 2).unwrap();
    let result = get(&store, &MissionFilter::default());
    assert_eq!(result.len(), 1)
}

#[test]
fn get_filters_by_status_and_chief() {
    let mut store = MissionStore::new();
    for chief in [1, 2, 1] {
        let model = NewMissionModel { name: format!("by {chief}"), description: None };
        add(&mut store, chief, model, 0).unwrap();
    }
    join(&mut store, 3, 9).unwrap();
    in_progress(&mut store, 1, 1).unwrap();
    let all = get(&store, &MissionFilter::all());
    assert_eq!(all.iter().map(|m| m.id).collect::<Vec<_>>(), vec![1, 2, 3]);
    let mine = get(&store, &MissionFilter { status: None, chief_id: Some(1) });
    assert_eq!(mine.iter().map(|m| m.id).collect::<Vec<_>>(), vec![1, 3]);
    assert_eq!(mine[1].crew_count, 1);
    let open_mine =
        get(&store, &MissionFilter { status: Some(MissionStatus::Open), chief_id: Some(1) });
    assert_eq!(open_mine.len(), 1);
    assert_eq!(open_mine[0].id, 3);
    remove(&mut store, 2, 2).unwrap();
    assert_eq!(get(&store, &MissionFilter::all()).len(), 2);
}
