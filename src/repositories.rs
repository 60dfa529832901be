//! The crew membership interface and the transaction interface. Any store can serve
//! them; `MissionStore` does, in memory.
use vstd::prelude::*;
use crate::entities::CrewMembership;
use crate::error::MissionError;
use crate::store::{crew_ok, spec_apply_all, spec_committed, spec_delete, spec_insert, CrewCommand};

verus! {

/// The membership table, with the two writes the crew service makes.
pub trait CrewOperationRepository {
    /// The membership rows, in store order.
    spec fn crew_rows(&self) -> Seq<CrewMembership>;

    /// The table's invariant.
    spec fn crew_wf(&self) -> bool;

    /// The invariant keeps each membership unique and each mission's crew
    /// within the ceiling.
    proof fn lemma_crew_ok(&self)
        requires
            self.crew_wf(),
        ensures
            crew_ok(self.crew_rows()),
    ;

    /// Inserts `crew_membership`: `Conflict` if it exists, `MissionFull` if
    /// its mission is at the ceiling.
    fn join(&mut self, crew_membership: CrewMembership) -> (r: Result<(), MissionError>)
        requires
            old(self).crew_wf(),
        ensures
            final(self).crew_wf(),
            match spec_insert(old(self).crew_rows(), crew_membership) {
                Ok(c) => r == Ok::<(), MissionError>(()) && final(self).crew_rows() == c,
                Err(e) => r == Err::<(), MissionError>(e) && final(self).crew_rows() == old(
                    self,
                ).crew_rows(),
            },
    ;

    /// Deletes `crew_membership`: `NotFound` if it does not exist.
    fn leave(&mut self, crew_membership: CrewMembership) -> (r: Result<(), MissionError>)
        requires
            old(self).crew_wf(),
        ensures
            final(self).crew_wf(),
            match spec_delete(old(self).crew_rows(), crew_membership) {
                Ok(c) => r == Ok::<(), MissionError>(()) && final(self).crew_rows() == c,
                Err(e) => r == Err::<(), MissionError>(e) && final(self).crew_rows() == old(
                    self,
                ).crew_rows(),
            },
    ;
}

/// Runs membership writes as one unit of work.
pub trait TransactionProvider: CrewOperationRepository {
    /// Runs `ops` in order: every write takes effect, or, at the first
    /// failing write, none does and its error is returned unchanged.
    fn transaction(&mut self, ops: &Vec<CrewCommand>) -> (r: Result<(), MissionError>)
        requires
            old(self).crew_wf(),
        ensures
            final(self).crew_wf(),
            final(self).crew_rows() == spec_committed(old(self).crew_rows(), ops@),
            match spec_apply_all(old(self).crew_rows(), ops@) {
                Ok(_) => r == Ok::<(), MissionError>(()),
                Err(e) => r == Err::<(), MissionError>(e),
            },
    ;
}

} // verus!
