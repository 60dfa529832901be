use vstd::prelude::*;

verus! {

/// The broad category of a failure, as callers classify it.
#[derive(Clone, Copy, Debug, PartialEq, Eq, Structural)]
pub enum ErrorKind {
    NotFound,
    InvalidTransition,
    Unauthorized,
    CapacityExceeded,
    Conflict,
    StoreFailure,
}

/// Every failure of a mission or crew operation, one variant per message.
#[derive(Clone, Copy, Debug, PartialEq, Eq, Structural)]
pub enum MissionError {
    /// The referenced mission (or membership) does not exist.
    NotFound,
    /// `in_progress` on a mission that is not Open.
    NotStartable,
    /// `to_completed` on a mission that is not InProgress.
    NotCompletable,
    /// `to_failed` on a mission that is not InProgress.
    NotFailable,
    /// `join` on a mission that is not Open.
    NotJoinable,
    /// `leave` on a mission that is not Open.
    NotLeavable,
    /// `edit` or `remove` on a mission that has crew members.
    HasActiveCrew,
    /// The actor is not the mission's chief.
    Unauthorized,
    /// `in_progress` on a mission whose crew is over the ceiling.
    CrewExceedsCapacity,
    /// `join` on a mission whose crew is at the ceiling.
    MissionFull,
    /// The membership already exists.
    Conflict,
    /// The store cannot take the write (no identifier left).
    StoreFailure,
}

impl MissionError {
    pub open spec fn spec_kind(self) -> ErrorKind {
        match self {
            MissionError::NotFound => ErrorKind::NotFound,
            MissionError::NotStartable => ErrorKind::InvalidTransition,
            MissionError::NotCompletable => ErrorKind::InvalidTransition,
            MissionError::NotFailable => ErrorKind::InvalidTransition,
            MissionError::NotJoinable => ErrorKind::InvalidTransition,
            MissionError::NotLeavable => ErrorKind::InvalidTransition,
            MissionError::HasActiveCrew => ErrorKind::InvalidTransition,
            MissionError::Unauthorized => ErrorKind::Unauthorized,
            MissionError::CrewExceedsCapacity => ErrorKind::CapacityExceeded,
            MissionError::MissionFull => ErrorKind::CapacityExceeded,
            MissionError::Conflict => ErrorKind::Conflict,
            MissionError::StoreFailure => ErrorKind::StoreFailure,
        }
    }

    /// The category this error belongs to.
    pub fn kind(&self) -> (r: ErrorKind)
        ensures
            r == self.spec_kind(),
    {
        match self {
            MissionError::NotFound => ErrorKind::NotFound,
            MissionError::NotStartable => ErrorKind::InvalidTransition,
            MissionError::NotCompletable => ErrorKind::InvalidTransition,
            MissionError::NotFailable => ErrorKind::InvalidTransition,
            MissionError::NotJoinable => ErrorKind::InvalidTransition,
            MissionError::NotLeavable => ErrorKind::InvalidTransition,
            MissionError::HasActiveCrew => ErrorKind::InvalidTransition,
            MissionError::Unauthorized => ErrorKind::Unauthorized,
            MissionError::CrewExceedsCapacity => ErrorKind::CapacityExceeded,
            MissionError::MissionFull => ErrorKind::CapacityExceeded,
            MissionError::Conflict => ErrorKind::Conflict,
            MissionError::StoreFailure => ErrorKind::StoreFailure,
        }
    }

    pub open spec fn spec_message(self) -> Seq<char> {
        match self {
            MissionError::NotFound => "Mission not found"@,
            MissionError::NotStartable => "Mission is not in a startable state"@,
            MissionError::NotCompletable => "Mission is not completable"@,
            MissionError::NotFailable => "Mission is not failable"@,
            MissionError::NotJoinable => "Mission is not joinable"@,
            MissionError::NotLeavable => "Mission is not leavable"@,
            MissionError::HasActiveCrew => "Mission has active crew, cannot edit"@,
            MissionError::Unauthorized => "Not authorized"@,
            MissionError::CrewExceedsCapacity => "Crew exceeds capacity"@,
            MissionError::MissionFull => "Mission is full"@,
            MissionError::Conflict => "Crew membership already exists"@,
            MissionError::StoreFailure => "Store failure"@,
        }
    }

    /// The text shown to callers for this error.
    pub fn message(&self) -> (r: &'static str)
        ensures
            r@ == self.spec_message(),
    {
        match self {
            MissionError::NotFound => "Mission not found",
            MissionError::NotStartable => "Mission is not in a startable state",
            MissionError::NotCompletable => "Mission is not completable",
            MissionError::NotFailable => "Mission is not failable",
            MissionError::NotJoinable => "Mission is not joinable",
            MissionError::NotLeavable => "Mission is not leavable",
            MissionError::HasActiveCrew => "Mission has active crew, cannot edit",
            MissionError::Unauthorized => "Not authorized",
            MissionError::CrewExceedsCapacity => "Crew exceeds capacity",
            MissionError::MissionFull => "Mission is full",
            MissionError::Conflict => "Crew membership already exists",
            MissionError::StoreFailure => "Store failure",
        }
    }

    /// The message as an owned string.
    pub fn to_string(&self) -> (r: String)
        ensures
            r@ == self.spec_message(),
    {
        self.message().to_owned()
    }
}

} // verus!
