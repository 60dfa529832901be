//! The decisions of the mission and crew services, on plain values. Each
//! check looks at the mission as read and the crew count, and either allows
//! the write or names the first rule that forbids it.
use vstd::prelude::*;
use crate::entities::{MissionEntity, MissionStatus, MAX_CREW_PER_MISSION};
use crate::error::MissionError;

verus! {

/// A status change that a chief can ask for.
#[derive(Clone, Copy, Debug, PartialEq, Eq, Structural)]
pub enum Transition {
    /// Open to InProgress.
    Start,
    /// InProgress to Completed.
    Complete,
    /// InProgress to Failed.
    Fail,
}

/// The state machine: the status reached from `from` by `t`, if `t` is
/// accepted there.
pub open spec fn spec_next_status(from: MissionStatus, t: Transition) -> Option<MissionStatus> {
    match (from, t) {
        (MissionStatus::Open, Transition::Start) => Some(MissionStatus::InProgress),
        (MissionStatus::InProgress, Transition::Complete) => Some(MissionStatus::Completed),
        (MissionStatus::InProgress, Transition::Fail) => Some(MissionStatus::Failed),
        _ => None,
    }
}

/// The error reported when `t` is asked for from a status that does not
/// accept it.
pub open spec fn spec_status_error(t: Transition) -> MissionError {
    match t {
        Transition::Start => MissionError::NotStartable,
        Transition::Complete => MissionError::NotCompletable,
        Transition::Fail => MissionError::NotFailable,
    }
}

/// The outcome of asking for `t` as `chief_id` on a mission with `status`,
/// chief `owner` and `crew_count` members: status first, then ownership, then
/// (when starting) capacity.
pub open spec fn spec_transition(
    status: MissionStatus,
    owner: i32,
    crew_count: u32,
    chief_id: i32,
    t: Transition,
) -> Result<MissionStatus, MissionError> {
    match spec_next_status(status, t) {
        None => Err(spec_status_error(t)),
        Some(next) => if owner != chief_id {
            Err(MissionError::Unauthorized)
        } else if t == Transition::Start && crew_count > MAX_CREW_PER_MISSION {
            Err(MissionError::CrewExceedsCapacity)
        } else {
            Ok(next)
        },
    }
}

/// The outcome of a join on a mission with `status` and `crew_count` members.
pub open spec fn spec_join(status: MissionStatus, crew_count: u32) -> Result<(), MissionError> {
    if status != MissionStatus::Open {
        Err(MissionError::NotJoinable)
    } else if crew_count >= MAX_CREW_PER_MISSION {
        Err(MissionError::MissionFull)
    } else {
        Ok(())
    }
}

/// The outcome of a leave on a mission with `status`.
pub open spec fn spec_leave(status: MissionStatus) -> Result<(), MissionError> {
    if status != MissionStatus::Open {
        Err(MissionError::NotLeavable)
    } else {
        Ok(())
    }
}

/// The outcome of an edit or a removal on a mission with `crew_count` members.
pub open spec fn spec_unmanned(crew_count: u32) -> Result<(), MissionError> {
    if crew_count == 0 {
        Ok(())
    } else {
        Err(MissionError::HasActiveCrew)
    }
}

/// The status reached from `from` by `t`, or `None` where the state machine
/// refuses `t`.
pub fn next_status(from: MissionStatus, t: Transition) -> (r: Option<MissionStatus>)
    ensures
        r == spec_next_status(from, t),
{
    match (from, t) {
        (MissionStatus::Open, Transition::Start) => Some(MissionStatus::InProgress),
        (MissionStatus::InProgress, Transition::Complete) => Some(MissionStatus::Completed),
        (MissionStatus::InProgress, Transition::Fail) => Some(MissionStatus::Failed),
        _ => None,
    }
}

/// Decides a status change asked for by `chief_id` on `mission`, which has
/// `crew_count` members; on success returns the new status.
pub fn check_transition(
    mission: &MissionEntity,
    chief_id: i32,
    crew_count: u32,
    t: Transition,
) -> (r: Result<MissionStatus, MissionError>)
    ensures
        r == spec_transition(mission.status, mission.chief_id, crew_count, chief_id, t),
{
    match next_status(mission.status, t) {
        None => Err(
            match t {
                Transition::Start => MissionError::NotStartable,
                Transition::Complete => MissionError::NotCompletable,
                Transition::Fail => MissionError::NotFailable,
            },
        ),
        Some(next) => {
            if mission.chief_id != chief_id {
                Err(MissionError::Unauthorized)
            } else if t == Transition::Start && crew_count > MAX_CREW_PER_MISSION {
                Err(MissionError::CrewExceedsCapacity)
            } else {
                Ok(next)
            }
        },
    }
}

/// Decides whether a participant may join `mission`, which has `crew_count`
/// members.
pub fn check_join(mission: &MissionEntity, crew_count: u32) -> (r: Result<(), MissionError>)
    ensures
        r == spec_join(mission.status, crew_count),
{
    if mission.status != MissionStatus::Open {
        Err(MissionError::NotJoinable)
    } else if crew_count >= MAX_CREW_PER_MISSION {
        Err(MissionError::MissionFull)
    } else {
        Ok(())
    }
}

/// Decides whether a participant may leave `mission`.
pub fn check_leave(mission: &MissionEntity) -> (r: Result<(), MissionError>)
    ensures
        r == spec_leave(mission.status),
{
    if mission.status != MissionStatus::Open {
        Err(MissionError::NotLeavable)
    } else {
        Ok(())
    }
}

/// Decides whether a mission with `crew_count` members may be edited or
/// removed.
pub fn check_unmanned(crew_count: u32) -> (r: Result<(), MissionError>)
    ensures
        r == spec_unmanned(crew_count),
{
    if crew_count == 0 {
        Ok(())
    } else {
        Err(MissionError::HasActiveCrew)
    }
}

} // verus!
