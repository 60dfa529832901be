//! The mission status state machine as driven by the mission's chief:
//! Open to InProgress, then InProgress to Completed or to Failed.
use vstd::prelude::*;
use crate::entities::with_status;
use crate::error::MissionError;
use crate::rules::{check_transition, spec_transition, Transition};
use crate::store::MissionStore;

verus! {

/// The outcome of asking for `t` on mission `mission_id` of `store` as
/// `chief_id`: `NotFound`, or the checks of `spec_transition` on the mission
/// as stored and its crew count.
pub open spec fn spec_operate(store: MissionStore, chief_id: i32, mission_id: i32, t: Transition) -> Result<
    crate::entities::MissionStatus,
    MissionError,
> {
    if !store.missions_view().contains_key(mission_id) {
        Err(MissionError::NotFound)
    } else {
        let m = store.missions_view()[mission_id];
        spec_transition(m.status, m.chief_id, store.crew_count(mission_id) as u32, chief_id, t)
    }
}

/// What a status change leaves in the store: on success the mission's new
/// status and its id; on failure the error and an unchanged store.
pub open spec fn operated(
    before: MissionStore,
    after: MissionStore,
    chief_id: i32,
    mission_id: i32,
    t: Transition,
    r: Result<i32, MissionError>,
) -> bool {
    &&& after.wf()
    &&& after.crew_view() == before.crew_view()
    &&& match spec_operate(before, chief_id, mission_id, t) {
        Ok(next) => r == Ok::<i32, MissionError>(mission_id) && after.missions_view()
            == before.missions_view().insert(
            mission_id,
            with_status(before.missions_view()[mission_id], next),
        ),
        Err(e) => r == Err::<i32, MissionError>(e) && after.missions_view()
            == before.missions_view(),
    }
}

/// Applies transition `t` to mission `mission_id` on behalf of `chief_id`.
pub fn operate(store: &mut MissionStore, chief_id: i32, mission_id: i32, t: Transition) -> (r: Result<
    i32,
    MissionError,
>)
    requires
        old(store).wf(),
    ensures
        operated(*old(store), *final(store), chief_id, mission_id, t, r),
{
    let next = match store.find(mission_id) {
        None => {
            return Err(MissionError::NotFound);
        },
        Some(m) => {
            let count = store.count_crew(mission_id);
            check_transition(m, chief_id, count, t)
        },
    };
    match next {
        Err(e) => Err(e),
        Ok(status) => store.set_status(mission_id, status),
    }
}

/// Starts Open mission `mission_id` of `chief_id`: status first, then
/// ownership, then a crew no larger than the ceiling.
pub fn in_progress(store: &mut MissionStore, chief_id: i32, mission_id: i32) -> (r: Result<
    i32,
    MissionError,
>)
    requires
        old(store).wf(),
    ensures
        operated(*old(store), *final(store), chief_id, mission_id, Transition::Start, r),
{
    operate(store, chief_id, mission_id, Transition::Start)
}

/// Completes InProgress mission `mission_id` of `chief_id`.
pub fn to_completed(store: &mut MissionStore, chief_id: i32, mission_id: i32) -> (r: Result<
    i32,
    MissionError,
>)
    requires
        old(store).wf(),
    ensures
        operated(*old(store), *final(store), chief_id, mission_id, Transition::Complete, r),
{
    operate(store, chief_id, mission_id, Transition::Complete)
}

/// Fails InProgress mission `mission_id` of `chief_id`.
pub fn to_failed(store: &mut MissionStore, chief_id: i32, mission_id: i32) -> (r: Result<
    i32,
    MissionError,
>)
    requires
        old(store).wf(),
    ensures
        operated(*old(store), *final(store), chief_id, mission_id, Transition::Fail, r),
{
    operate(store, chief_id, mission_id, Transition::Fail)
}

} // verus!
