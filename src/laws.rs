//! Properties that hold of the services for every store and every input,
//! stated over the same spec functions as the services' own contracts.
use vstd::prelude::*;
use crate::crew_operation::{insert_then_delete, spec_join_outcome, spec_leave_outcome};
use crate::entities::{CrewMembership, MissionStatus, MAX_CREW_PER_MISSION};
use crate::error::{ErrorKind, MissionError};
use crate::mission_management::spec_manage;
use crate::rules::{spec_next_status, spec_status_error, spec_transition, Transition};
use crate::store::{
    count_in, crew_ok, lemma_count_push, spec_apply, spec_apply_all, spec_committed, spec_delete, spec_insert,
    CrewCommand, MissionStore,
};

verus! {

/// Joining a mission that is not Open fails as an invalid transition,
/// whatever its crew; `join` then leaves the crew table as it was.
pub proof fn lemma_join_needs_open(store: MissionStore, mission_id: i32, brawler_id: i32)
    requires
        store.wf(),
        store.missions_view().contains_key(mission_id),
        store.missions_view()[mission_id].status != MissionStatus::Open,
    ensures
        spec_join_outcome(store, mission_id, brawler_id) == Err::<(), MissionError>(
            MissionError::NotJoinable,
        ),
        MissionError::NotJoinable.spec_kind() == ErrorKind::InvalidTransition,
{
}

/// Joining an Open mission whose crew is at the ceiling fails as a capacity
/// error.
pub proof fn lemma_join_at_ceiling(store: MissionStore, mission_id: i32, brawler_id: i32)
    requires
        store.wf(),
        store.missions_view().contains_key(mission_id),
        store.missions_view()[mission_id].status == MissionStatus::Open,
        store.crew_count(mission_id) == MAX_CREW_PER_MISSION as nat,
    ensures
        spec_join_outcome(store, mission_id, brawler_id) == Err::<(), MissionError>(
            MissionError::MissionFull,
        ),
        MissionError::MissionFull.spec_kind() == ErrorKind::CapacityExceeded,
{
}

/// A newcomer joining an Open mission one below the ceiling succeeds, and the
/// crew then stands at the ceiling.
pub proof fn lemma_join_fills_last_place(store: MissionStore, mission_id: i32, brawler_id: i32)
    requires
        store.wf(),
        store.missions_view().contains_key(mission_id),
        store.missions_view()[mission_id].status == MissionStatus::Open,
        store.crew_count(mission_id) == MAX_CREW_PER_MISSION as nat - 1,
        !store.is_member(mission_id, brawler_id),
    ensures
        spec_join_outcome(store, mission_id, brawler_id) == Ok::<(), MissionError>(()),
        count_in(store.crew_view().push(CrewMembership { mission_id, brawler_id }), mission_id)
            == MAX_CREW_PER_MISSION as nat,
{
    lemma_count_push(store.crew_view(), CrewMembership { mission_id, brawler_id }, mission_id);
}

/// Leaving a mission that is not Open fails as an invalid transition,
/// whether or not the participant is a member.
pub proof fn lemma_leave_needs_open(store: MissionStore, mission_id: i32)
    requires
        store.missions_view().contains_key(mission_id),
        store.missions_view()[mission_id].status != MissionStatus::Open,
    ensures
        spec_leave_outcome(store, mission_id) == Err::<(), MissionError>(MissionError::NotLeavable),
        MissionError::NotLeavable.spec_kind() == ErrorKind::InvalidTransition,
{
}

/// For every transition the status check comes first: from a status that
/// refuses the transition the status error is reported whoever asks; from one
/// that accepts it, anyone but the chief is refused as unauthorized.
pub proof fn lemma_status_then_chief(
    status: MissionStatus,
    owner: i32,
    crew_count: u32,
    chief_id: i32,
    t: Transition,
)
    ensures
        spec_next_status(status, t) is None ==> spec_transition(
            status,
            owner,
            crew_count,
            chief_id,
            t,
        ) == Err::<MissionStatus, MissionError>(spec_status_error(t)),
        spec_next_status(status, t) is Some && owner != chief_id ==> spec_transition(
            status,
            owner,
            crew_count,
            chief_id,
            t,
        ) == Err::<MissionStatus, MissionError>(MissionError::Unauthorized),
        spec_status_error(t).spec_kind() == ErrorKind::InvalidTransition,
        MissionError::Unauthorized.spec_kind() == ErrorKind::Unauthorized,
{
}

/// The state machine: Open starts, InProgress completes or fails, and
/// nothing else is accepted; Completed and Failed are terminal.
pub proof fn lemma_state_machine()
    ensures
        spec_next_status(MissionStatus::Open, Transition::Start) == Some(MissionStatus::InProgress),
        spec_next_status(MissionStatus::InProgress, Transition::Complete) == Some(
            MissionStatus::Completed,
        ),
        spec_next_status(MissionStatus::InProgress, Transition::Fail) == Some(MissionStatus::Failed),
        spec_next_status(MissionStatus::Open, Transition::Complete) is None,
        spec_next_status(MissionStatus::Open, Transition::Fail) is None,
        spec_next_status(MissionStatus::InProgress, Transition::Start) is None,
        forall|t: Transition| #[trigger] spec_next_status(MissionStatus::Completed, t) is None,
        forall|t: Transition| #[trigger] spec_next_status(MissionStatus::Failed, t) is None,
{
}

/// The chief's edit or removal of an existing mission succeeds exactly when
/// the mission has no crew.
pub proof fn lemma_manage_needs_empty_crew(store: MissionStore, chief_id: i32, mission_id: i32)
    requires
        store.wf(),
        store.missions_view().contains_key(mission_id),
        store.missions_view()[mission_id].chief_id == chief_id,
    ensures
        spec_manage(store, chief_id, mission_id) is Ok <==> store.crew_count(mission_id) == 0,
{
    assert(count_in(store.crew_view(), mission_id) <= MAX_CREW_PER_MISSION as nat);
}

/// An insert followed by the delete of the same membership, run as one unit
/// of work, succeeds and leaves the crew table exactly as it was.
pub proof fn lemma_insert_then_delete_restores(crew: Seq<CrewMembership>, m: CrewMembership)
    requires
        crew_ok(crew),
        spec_insert(crew, m) is Ok,
    ensures
        spec_apply_all(crew, insert_then_delete(m)) == Ok::<Seq<CrewMembership>, MissionError>(crew),
        spec_committed(crew, insert_then_delete(m)) == crew,
{
    let ops = insert_then_delete(m);
    let c = crew.push(m);
    assert(c.contains(m)) by {
        assert(c[crew.len() as int] == m);
    }
    let j = c.index_of(m);
    assert(0 <= j < c.len() && c[j] == m);
    if j < crew.len() {
        assert(crew[j] == m);
        assert(crew.contains(m));
    }
    assert(j == crew.len());
    assert(c.remove(j) =~= crew);
    assert(spec_delete(c, m) == Ok::<Seq<CrewMembership>, MissionError>(crew));
    let rest = ops.drop_first();
    assert(rest =~= seq![CrewCommand::Delete(m)]);
    assert(rest.drop_first() =~= Seq::<CrewCommand>::empty());
    assert(spec_apply_all(crew, rest.drop_first()) == Ok::<Seq<CrewMembership>, MissionError>(crew));
    assert(spec_apply_all(c, rest) == Ok::<Seq<CrewMembership>, MissionError>(crew));
    assert(spec_apply(crew, ops[0]) == Ok::<Seq<CrewMembership>, MissionError>(c));
}

/// When the delete after an insert fails, the unit of work leaves the crew
/// table as it was: the insert is not visible.
pub proof fn lemma_failed_delete_discards_insert(
    crew: Seq<CrewMembership>,
    inserted: CrewMembership,
    deleted: CrewMembership,
)
    requires
        spec_insert(crew, inserted) is Ok,
        spec_delete(crew.push(inserted), deleted) is Err,
    ensures
        spec_apply_all(crew, seq![CrewCommand::Insert(inserted), CrewCommand::Delete(deleted)]) is Err,
        spec_committed(crew, seq![CrewCommand::Insert(inserted), CrewCommand::Delete(deleted)])
            == crew,
{
    let ops = seq![CrewCommand::Insert(inserted), CrewCommand::Delete(deleted)];
    let rest = ops.drop_first();
    assert(rest =~= seq![CrewCommand::Delete(deleted)]);
    assert(spec_apply_all(crew.push(inserted), rest) is Err);
    assert(spec_apply(crew, ops[0]) == Ok::<Seq<CrewMembership>, MissionError>(crew.push(inserted)));
}

/// A unit of work that fails anywhere leaves the crew table as it was.
pub proof fn lemma_failed_unit_changes_nothing(crew: Seq<CrewMembership>, ops: Seq<CrewCommand>)
    requires
        spec_apply_all(crew, ops) is Err,
    ensures
        spec_committed(crew, ops) == crew,
{
}

} // verus!
