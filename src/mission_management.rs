//! Creating, editing and removing missions. A mission that has crew members
//! can be neither edited nor removed.
use vstd::prelude::*;
use crate::entities::{
    created, patched, spec_add_entity, spec_edit_entity, NewMissionModel, UpdateMissionModel,
};
use crate::error::MissionError;
use crate::rules::{check_unmanned, spec_unmanned};
use crate::store::{spec_owned, MissionStore};

verus! {

/// The outcome of an edit or a removal of mission `mission_id` by
/// `chief_id`: the crew count is checked first, then the mission's
/// existence and ownership.
pub open spec fn spec_manage(store: MissionStore, chief_id: i32, mission_id: i32) -> Result<
    (),
    MissionError,
> {
    match spec_unmanned(store.crew_count(mission_id) as u32) {
        Err(e) => Err(e),
        Ok(_) => spec_owned(store.missions_view(), mission_id, chief_id),
    }
}

/// Creates an Open mission owned by `chief_id`, stamped with `now`, and
/// returns its id.
pub fn add(store: &mut MissionStore, chief_id: i32, new_mission: NewMissionModel, now: i64) -> (r:
    Result<i32, MissionError>)
    requires
        old(store).wf(),
    ensures
        final(store).wf(),
        final(store).crew_view() == old(store).crew_view(),
        r is Ok <==> old(store).ids_left(),
        match r {
            Ok(id) => !old(store).missions_view().contains_key(id) && final(store).missions_view()
                == old(store).missions_view().insert(
                id,
                created(id, spec_add_entity(chief_id, new_mission), now),
            ),
            Err(e) => e == MissionError::StoreFailure && final(store).missions_view() == old(
                store,
            ).missions_view(),
        },
{
    store.add(new_mission.to_entity(chief_id), now)
}

/// Applies `patch` to mission `mission_id` of `chief_id` and returns its id,
/// provided the mission has no crew.
pub fn edit(
    store: &mut MissionStore,
    chief_id: i32,
    mission_id: i32,
    patch: UpdateMissionModel,
) -> (r: Result<i32, MissionError>)
    requires
        old(store).wf(),
    ensures
        final(store).wf(),
        final(store).crew_view() == old(store).crew_view(),
        match spec_manage(*old(store), chief_id, mission_id) {
            Ok(_) => r == Ok::<i32, MissionError>(mission_id) && final(store).missions_view()
                == old(store).missions_view().insert(
                mission_id,
                patched(old(store).missions_view()[mission_id], spec_edit_entity(chief_id, patch)),
            ),
            Err(e) => r == Err::<i32, MissionError>(e) && final(store).missions_view() == old(
                store,
            ).missions_view(),
        },
{
    let count = store.count_crew(mission_id);
    match check_unmanned(count) {
        Err(e) => Err(e),
        Ok(()) => store.edit(mission_id, patch.to_entity(chief_id)),
    }
}

/// Deletes mission `mission_id` of `chief_id`, provided it has no crew.
pub fn remove(store: &mut MissionStore, chief_id: i32, mission_id: i32) -> (r: Result<
    (),
    MissionError,
>)
    requires
        old(store).wf(),
    ensures
        final(store).wf(),
        final(store).crew_view() == old(store).crew_view(),
        r == spec_manage(*old(store), chief_id, mission_id),
        match r {
            Ok(_) => final(store).missions_view() == old(store).missions_view().remove(mission_id),
            Err(_) => final(store).missions_view() == old(store).missions_view(),
        },
{
    let count = store.count_crew(mission_id);
    match check_unmanned(count) {
        Err(e) => Err(e),
        Ok(()) => store.remove(mission_id, chief_id),
    }
}

} // verus!
