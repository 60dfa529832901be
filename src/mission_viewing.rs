//! Read-side queries: one mission, or the missions a filter selects, each
//! with its current crew count attached.
use vstd::prelude::*;
use crate::entities::{model_of, to_model, MissionEntity, MissionFilter, MissionModel};
use crate::error::MissionError;
use crate::store::{count_in, MissionStore};

verus! {

/// The read model of mission `mission_id` of `store`, or `NotFound`.
pub open spec fn spec_view_detail(store: MissionStore, mission_id: i32) -> Result<
    MissionModel,
    MissionError,
> {
    if store.missions_view().contains_key(mission_id) {
        Ok(model_of(store.missions_view()[mission_id], store.crew_count(mission_id) as u32))
    } else {
        Err(MissionError::NotFound)
    }
}

/// The read models of the rows of `rows` that `filter` selects, in row
/// order, with crew counts taken from `crew`.
pub open spec fn spec_listing(
    rows: Seq<MissionEntity>,
    crew: Seq<crate::entities::CrewMembership>,
    filter: MissionFilter,
) -> Seq<MissionModel>
    decreases rows.len(),
{
    if rows.len() == 0 {
        Seq::empty()
    } else {
        let rest = spec_listing(rows.drop_last(), crew, filter);
        let m = rows.last();
        if filter.spec_matches(m) {
            rest.push(model_of(m, count_in(crew, m.id) as u32))
        } else {
            rest
        }
    }
}

/// Mission `mission_id` with its crew count; fails with `NotFound` if it
/// does not exist.
pub fn view_detail(store: &MissionStore, mission_id: i32) -> (r: Result<MissionModel, MissionError>)
    requires
        store.wf(),
    ensures
        r == spec_view_detail(*store, mission_id),
{
    match store.find(mission_id) {
        None => Err(MissionError::NotFound),
        Some(m) => {
            let count = store.count_crew(mission_id);
            Ok(to_model(m, count))
        },
    }
}

/// The missions that `filter` selects, in store order, each with its crew
/// count.
pub fn get(store: &MissionStore, filter: &MissionFilter) -> (r: Vec<MissionModel>)
    requires
        store.wf(),
    ensures
        r@ == spec_listing(store.rows(), store.crew_view(), *filter),
{
    let mut out: Vec<MissionModel> = Vec::new();
    let mut i: usize = 0;
    let n = store.len();
    while i < n
        invariant
            n == store.rows().len(),
            i <= n,
            store.wf(),
            out@ == spec_listing(store.rows().subrange(0, i as int), store.crew_view(), *filter),
        decreases n - i,
    {
        let ghost prefix = store.rows().subrange(0, i + 1);
        assert(prefix.drop_last() =~= store.rows().subrange(0, i as int));
        let m = store.row(i);
        if filter.matches(m) {
            let count = store.count_crew(m.id);
            out.push(to_model(m, count));
        }
        i += 1;
    }
    assert(store.rows().subrange(0, n as int) =~= store.rows());
    out
}

} // verus!
