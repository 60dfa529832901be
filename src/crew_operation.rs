//! The membership protocol: joining and leaving a mission, and an insert
//! followed by a delete run as one unit of work.
use vstd::prelude::*;
use crate::entities::CrewMembership;
use crate::error::MissionError;
use crate::repositories::{CrewOperationRepository, TransactionProvider};
use crate::rules::{check_join, check_leave, spec_join, spec_leave};
use crate::laws::lemma_insert_then_delete_restores;
use crate::store::{spec_apply_all, spec_committed, spec_delete, spec_insert, CrewCommand, MissionStore};

verus! {

/// The outcome of `join(mission_id, brawler_id)` on `store`: `NotFound`,
/// then the status and capacity checks, then `Conflict` for an existing
/// membership.
pub open spec fn spec_join_outcome(store: MissionStore, mission_id: i32, brawler_id: i32) -> Result<
    (),
    MissionError,
> {
    if !store.missions_view().contains_key(mission_id) {
        Err(MissionError::NotFound)
    } else {
        match spec_join(store.missions_view()[mission_id].status, store.crew_count(mission_id) as u32) {
            Err(e) => Err(e),
            Ok(_) => if store.is_member(mission_id, brawler_id) {
                Err(MissionError::Conflict)
            } else {
                Ok(())
            },
        }
    }
}

/// The outcome of `leave(mission_id, brawler_id)` on `store`: `NotFound`,
/// then the status check. Leaving a mission one is not a member of succeeds
/// and changes nothing.
pub open spec fn spec_leave_outcome(store: MissionStore, mission_id: i32) -> Result<(), MissionError> {
    if !store.missions_view().contains_key(mission_id) {
        Err(MissionError::NotFound)
    } else {
        spec_leave(store.missions_view()[mission_id].status)
    }
}

/// The crew table after membership `m` is deleted, if it is there.
pub open spec fn without(crew: Seq<CrewMembership>, m: CrewMembership) -> Seq<CrewMembership> {
    match spec_delete(crew, m) {
        Ok(c) => c,
        Err(_) => crew,
    }
}

/// The unit of work that inserts membership `m` and then deletes it.
pub open spec fn insert_then_delete(m: CrewMembership) -> Seq<CrewCommand> {
    seq![CrewCommand::Insert(m), CrewCommand::Delete(m)]
}

/// Adds `brawler_id` to the crew of mission `mission_id`.
pub fn join(store: &mut MissionStore, mission_id: i32, brawler_id: i32) -> (r: Result<(), MissionError>)
    requires
        old(store).wf(),
    ensures
        final(store).wf(),
        final(store).missions_view() == old(store).missions_view(),
        r == spec_join_outcome(*old(store), mission_id, brawler_id),
        match r {
            Ok(_) => final(store).crew_view() == old(store).crew_view().push(
                CrewMembership { mission_id, brawler_id },
            ),
            Err(_) => final(store).crew_view() == old(store).crew_view(),
        },
{
    let checked = match store.find(mission_id) {
        None => {
            return Err(MissionError::NotFound);
        },
        Some(m) => {
            let count = store.count_crew(mission_id);
            check_join(m, count)
        },
    };
    match checked {
        Err(e) => Err(e),
        Ok(()) => store.insert_crew(CrewMembership { mission_id, brawler_id }),
    }
}

/// Removes `brawler_id` from the crew of mission `mission_id`; succeeds
/// without change where there was no such membership.
pub fn leave(store: &mut MissionStore, mission_id: i32, brawler_id: i32) -> (r: Result<(), MissionError>)
    requires
        old(store).wf(),
    ensures
        final(store).wf(),
        final(store).missions_view() == old(store).missions_view(),
        r == spec_leave_outcome(*old(store), mission_id),
        match r {
            Ok(_) => final(store).crew_view() == without(
                old(store).crew_view(),
                CrewMembership { mission_id, brawler_id },
            ),
            Err(_) => final(store).crew_view() == old(store).crew_view(),
        },
{
    let checked = match store.find(mission_id) {
        None => {
            return Err(MissionError::NotFound);
        },
        Some(m) => check_leave(m),
    };
    match checked {
        Err(e) => Err(e),
        Ok(()) => {
            match store.delete_crew(CrewMembership { mission_id, brawler_id }) {
                Ok(()) => Ok(()),
                Err(_) => Ok(()),
            }
        },
    }
}

/// Inserts membership (`mission_id`, `brawler_id`) and deletes it again, as
/// one unit of work of `repository`; returns the first write's error, if any.
pub fn join_and_delete_transaction<R: TransactionProvider>(
    repository: &mut R,
    mission_id: i32,
    brawler_id: i32,
) -> (r: Result<(), MissionError>)
    requires
        old(repository).crew_wf(),
    ensures
        final(repository).crew_wf(),
        final(repository).crew_rows() == old(repository).crew_rows(),
        final(repository).crew_rows() == spec_committed(
            old(repository).crew_rows(),
            insert_then_delete(CrewMembership { mission_id, brawler_id }),
        ),
        match spec_apply_all(
            old(repository).crew_rows(),
            insert_then_delete(CrewMembership { mission_id, brawler_id }),
        ) {
            Ok(_) => r == Ok::<(), MissionError>(()),
            Err(e) => r == Err::<(), MissionError>(e),
        },
{
    let m = CrewMembership { mission_id, brawler_id };
    let ops = vec![CrewCommand::Insert(m), CrewCommand::Delete(m)];
    assert(ops@ =~= insert_then_delete(m));
    proof {
        repository.lemma_crew_ok();
        if spec_insert(repository.crew_rows(), m) is Ok {
            lemma_insert_then_delete_restores(repository.crew_rows(), m);
        } else {
            assert(insert_then_delete(m)[0] == CrewCommand::Insert(m));
        }
    }
    repository.transaction(&ops)
}

} // verus!
