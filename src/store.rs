//! An in-memory store that implements the mission and crew repository interfaces.
//! The crew table holds each (mission, participant) pair at most once and
//! never more than `MAX_CREW_PER_MISSION` rows for one mission; crew writes
//! can be grouped into a unit of work that commits whole or not at all.
use vstd::prelude::*;
use crate::entities::{
    copy_mission, created, patched, with_status, AddMissionEntity, CrewMembership, EditMissionEntity,
    MissionEntity, MissionStatus, MAX_CREW_PER_MISSION,
};
use crate::error::MissionError;

verus! {

/// No two rows share an id.
pub open spec fn ids_unique(s: Seq<MissionEntity>) -> bool {
    forall|i: int, j: int|
        #![trigger s[i], s[j]]
        0 <= i < s.len() && 0 <= j < s.len() && i != j ==> s[i].id != s[j].id
}

/// Some row has id `id`.
pub open spec fn has_id(s: Seq<MissionEntity>, id: i32) -> bool {
    exists|i: int| 0 <= i < s.len() && s[i].id == id
}

/// The mission table as a map from id to row.
pub open spec fn table(s: Seq<MissionEntity>) -> Map<i32, MissionEntity> {
    Map::new(|id: i32| has_id(s, id), |id: i32| s[choose|i: int| 0 <= i < s.len() && s[i].id == id])
}

/// The number of memberships of mission `mission_id`.
pub open spec fn count_in(crew: Seq<CrewMembership>, mission_id: i32) -> nat
    decreases crew.len(),
{
    if crew.len() == 0 {
        0
    } else {
        count_in(crew.drop_last(), mission_id) + if crew.last().mission_id == mission_id {
            1nat
        } else {
            0nat
        }
    }
}

/// No membership appears twice.
pub open spec fn pairs_unique(crew: Seq<CrewMembership>) -> bool {
    forall|i: int, j: int|
        #![trigger crew[i], crew[j]]
        0 <= i < crew.len() && 0 <= j < crew.len() && i != j ==> crew[i] != crew[j]
}

/// The crew table's invariant: unique pairs, and no mission over the ceiling.
pub open spec fn crew_ok(crew: Seq<CrewMembership>) -> bool {
    &&& pairs_unique(crew)
    &&& forall|id: i32| #[trigger] count_in(crew, id) <= MAX_CREW_PER_MISSION as nat
}

/// The crew table after inserting `m`, or the error that refuses it.
pub open spec fn spec_insert(crew: Seq<CrewMembership>, m: CrewMembership) -> Result<
    Seq<CrewMembership>,
    MissionError,
> {
    if crew.contains(m) {
        Err(MissionError::Conflict)
    } else if count_in(crew, m.mission_id) >= MAX_CREW_PER_MISSION as nat {
        Err(MissionError::MissionFull)
    } else {
        Ok(crew.push(m))
    }
}

/// The crew table after deleting `m`, or `NotFound` if it is absent.
pub open spec fn spec_delete(crew: Seq<CrewMembership>, m: CrewMembership) -> Result<
    Seq<CrewMembership>,
    MissionError,
> {
    if crew.contains(m) {
        Ok(crew.remove(crew.index_of(m)))
    } else {
        Err(MissionError::NotFound)
    }
}

/// Whether `chief_id` may change mission `id` of `missions`: `NotFound` if it
/// is absent, `Unauthorized` if another chief owns it.
pub open spec fn spec_owned(missions: Map<i32, MissionEntity>, id: i32, chief_id: i32) -> Result<
    (),
    MissionError,
> {
    if !missions.contains_key(id) {
        Err(MissionError::NotFound)
    } else if missions[id].chief_id != chief_id {
        Err(MissionError::Unauthorized)
    } else {
        Ok(())
    }
}

/// Whether mission `id` of `missions` may take a change set made for
/// `chief`: `NotFound` if it is absent, `Unauthorized` if `chief` is set and
/// does not own it.
pub open spec fn spec_may_edit(missions: Map<i32, MissionEntity>, id: i32, chief: Option<i32>) -> Result<
    (),
    MissionError,
> {
    match chief {
        Some(c) => spec_owned(missions, id, c),
        None => if missions.contains_key(id) {
            Ok(())
        } else {
            Err(MissionError::NotFound)
        },
    }
}

/// One write of a crew unit of work.
#[derive(Clone, Copy, Debug, PartialEq, Eq, Structural)]
pub enum CrewCommand {
    Insert(CrewMembership),
    Delete(CrewMembership),
}

pub open spec fn spec_apply(crew: Seq<CrewMembership>, c: CrewCommand) -> Result<
    Seq<CrewMembership>,
    MissionError,
> {
    match c {
        CrewCommand::Insert(m) => spec_insert(crew, m),
        CrewCommand::Delete(m) => spec_delete(crew, m),
    }
}

/// Runs `ops` in order from `crew`, stopping at the first failing write.
pub open spec fn spec_apply_all(crew: Seq<CrewMembership>, ops: Seq<CrewCommand>) -> Result<
    Seq<CrewMembership>,
    MissionError,
>
    decreases ops.len(),
{
    if ops.len() == 0 {
        Ok(crew)
    } else {
        match spec_apply(crew, ops[0]) {
            Ok(c) => spec_apply_all(c, ops.drop_first()),
            Err(e) => Err(e),
        }
    }
}

/// The crew table that a unit of work leaves behind: its result if every
/// write succeeded, the table it started from otherwise.
pub open spec fn spec_committed(crew: Seq<CrewMembership>, ops: Seq<CrewCommand>) -> Seq<
    CrewMembership,
> {
    match spec_apply_all(crew, ops) {
        Ok(c) => c,
        Err(_) => crew,
    }
}

proof fn lemma_table_at(s: Seq<MissionEntity>, i: int)
    requires
        ids_unique(s),
        0 <= i < s.len(),
    ensures
        table(s).contains_key(s[i].id),
        table(s)[s[i].id] == s[i],
{
    let id = s[i].id;
    assert(has_id(s, id));
    let j = choose|j: int| 0 <= j < s.len() && s[j].id == id;
    assert(0 <= j < s.len() && s[j].id == id);
    assert(j == i);
}

proof fn lemma_table_push(s: Seq<MissionEntity>, m: MissionEntity)
    requires
        ids_unique(s),
        !has_id(s, m.id),
    ensures
        ids_unique(s.push(m)),
        table(s.push(m)) == table(s).insert(m.id, m),
{
    let t = s.push(m);
    assert forall|i: int, j: int|
        #![trigger t[i], t[j]]
        0 <= i < t.len() && 0 <= j < t.len() && i != j implies t[i].id != t[j].id by {
        if i < s.len() && j < s.len() {
            assert(t[i] == s[i] && t[j] == s[j]);
        } else if i < s.len() {
            assert(t[i] == s[i]);
        } else {
            assert(t[j] == s[j]);
        }
    }
    let want = table(s).insert(m.id, m);
    assert forall|k: i32| #[trigger] table(t).contains_key(k) == want.contains_key(k) by {
        if has_id(t, k) {
            let i = choose|i: int| 0 <= i < t.len() && t[i].id == k;
            if i < s.len() {
                assert(t[i] == s[i]);
                assert(has_id(s, k));
            }
        }
        if has_id(s, k) {
            let i = choose|i: int| 0 <= i < s.len() && s[i].id == k;
            assert(t[i] == s[i]);
            assert(has_id(t, k));
        }
        if k == m.id {
            assert(t[s.len() as int] == m);
            assert(has_id(t, k));
        }
    }
    assert forall|k: i32| #[trigger] table(t).contains_key(k) implies table(t)[k] == want[k] by {
        let i = choose|i: int| 0 <= i < t.len() && t[i].id == k;
        lemma_table_at(t, i);
        if i < s.len() {
            assert(t[i] == s[i]);
            lemma_table_at(s, i);
        }
    }
    assert(table(t) =~= want);
}

proof fn lemma_table_update(s: Seq<MissionEntity>, i: int, m: MissionEntity)
    requires
        ids_unique(s),
        0 <= i < s.len(),
        s[i].id == m.id,
    ensures
        ids_unique(s.update(i, m)),
        table(s.update(i, m)) == table(s).insert(m.id, m),
{
    let t = s.update(i, m);
    assert forall|a: int, b: int|
        #![trigger t[a], t[b]]
        0 <= a < t.len() && 0 <= b < t.len() && a != b implies t[a].id != t[b].id by {
        assert(t[a].id == s[a].id && t[b].id == s[b].id);
    }
    let want = table(s).insert(m.id, m);
    lemma_table_at(s, i);
    assert forall|k: i32| #[trigger] table(t).contains_key(k) == want.contains_key(k) by {
        if has_id(t, k) {
            let j = choose|j: int| 0 <= j < t.len() && t[j].id == k;
            assert(s[j].id == k);
        }
        if has_id(s, k) {
            let j = choose|j: int| 0 <= j < s.len() && s[j].id == k;
            assert(t[j].id == k);
        }
    }
    assert forall|k: i32| #[trigger] table(t).contains_key(k) implies table(t)[k] == want[k] by {
        let j = choose|j: int| 0 <= j < t.len() && t[j].id == k;
        lemma_table_at(t, j);
        if j != i {
            lemma_table_at(s, j);
        }
    }
    assert(table(t) =~= want);
}

proof fn lemma_table_remove(s: Seq<MissionEntity>, i: int)
    requires
        ids_unique(s),
        0 <= i < s.len(),
    ensures
        ids_unique(s.remove(i)),
        table(s.remove(i)) == table(s).remove(s[i].id),
{
    let t = s.remove(i);
    let src = |a: int| if a < i { a } else { a + 1 };
    assert forall|a: int| 0 <= a < t.len() implies #[trigger] t[a] == s[src(a)] by {}
    assert forall|a: int, b: int|
        #![trigger t[a], t[b]]
        0 <= a < t.len() && 0 <= b < t.len() && a != b implies t[a].id != t[b].id by {
        assert(t[a] == s[src(a)] && t[b] == s[src(b)]);
    }
    let want = table(s).remove(s[i].id);
    assert forall|k: i32| #[trigger] table(t).contains_key(k) == want.contains_key(k) by {
        if has_id(t, k) {
            let j = choose|j: int| 0 <= j < t.len() && t[j].id == k;
            assert(t[j] == s[src(j)]);
            assert(has_id(s, k));
            assert(k != s[i].id);
        }
        if has_id(s, k) && k != s[i].id {
            let j = choose|j: int| 0 <= j < s.len() && s[j].id == k;
            if j < i {
                assert(t[j] == s[j]);
            } else {
                assert(t[j - 1] == s[j]);
            }
            assert(has_id(t, k));
        }
    }
    assert forall|k: i32| #[trigger] table(t).contains_key(k) implies table(t)[k] == want[k] by {
        let j = choose|j: int| 0 <= j < t.len() && t[j].id == k;
        lemma_table_at(t, j);
        assert(t[j] == s[src(j)]);
        lemma_table_at(s, src(j));
    }
    assert(table(t) =~= want);
}

/// Removing the membership at `k` lowers the count of its mission by one and
/// leaves the other counts as they were.
pub proof fn lemma_count_remove(crew: Seq<CrewMembership>, k: int, id: i32)
    requires
        0 <= k < crew.len(),
    ensures
        count_in(crew, id) == count_in(crew.remove(k), id) + if crew[k].mission_id == id {
            1nat
        } else {
            0nat
        },
    decreases crew.len(),
{
    if k == crew.len() - 1 {
        assert(crew.remove(k) =~= crew.drop_last());
    } else {
        lemma_count_remove(crew.drop_last(), k, id);
        assert(crew.remove(k).drop_last() =~= crew.drop_last().remove(k));
        assert(crew.remove(k).last() == crew.last());
    }
}

/// Appending a membership raises the count of its mission by one and leaves
/// the other counts as they were.
pub proof fn lemma_count_push(crew: Seq<CrewMembership>, m: CrewMembership, id: i32)
    ensures
        count_in(crew.push(m), id) == count_in(crew, id) + if m.mission_id == id {
            1nat
        } else {
            0nat
        },
{
    assert(crew.push(m).drop_last() =~= crew);
}

fn crew_index(crew: &Vec<CrewMembership>, m: CrewMembership) -> (r: Option<usize>)
    ensures
        match r {
            Some(i) => i < crew.len() && crew@[i as int] == m,
            None => !crew@.contains(m),
        },
{
    let mut i: usize = 0;
    while i < crew.len()
        invariant
            i <= crew.len(),
            forall|j: int| 0 <= j < i ==> crew@[j] != m,
        decreases crew.len() - i,
    {
        if crew[i] == m {
            return Some(i);
        }
        i += 1;
    }
    None
}

fn crew_count_of(crew: &Vec<CrewMembership>, mission_id: i32) -> (r: u32)
    requires
        crew_ok(crew@),
    ensures
        r as nat == count_in(crew@, mission_id),
{
    let mut n: usize = 0;
    let mut i: usize = 0;
    while i < crew.len()
        invariant
            i <= crew.len(),
            n <= i,
            n as nat == count_in(crew@.subrange(0, i as int), mission_id),
        decreases crew.len() - i,
    {
        assert(crew@.subrange(0, i + 1).drop_last() =~= crew@.subrange(0, i as int));
        if crew[i].mission_id == mission_id {
            n += 1;
        }
        i += 1;
    }
    assert(crew@.subrange(0, crew.len() as int) =~= crew@);
    assert(count_in(crew@, mission_id) <= MAX_CREW_PER_MISSION as nat);
    n as u32
}

fn crew_insert(crew: &mut Vec<CrewMembership>, m: CrewMembership) -> (r: Result<(), MissionError>)
    requires
        crew_ok(old(crew)@),
    ensures
        crew_ok(final(crew)@),
        match spec_insert(old(crew)@, m) {
            Ok(c) => r == Ok::<(), MissionError>(()) && final(crew)@ == c,
            Err(e) => r == Err::<(), MissionError>(e) && final(crew)@ == old(crew)@,
        },
{
    if crew_index(crew, m).is_some() {
        return Err(MissionError::Conflict);
    }
    if crew_count_of(crew, m.mission_id) >= MAX_CREW_PER_MISSION {
        return Err(MissionError::MissionFull);
    }
    let ghost before = crew@;
    crew.push(m);
    proof {
        assert forall|id: i32| #[trigger] count_in(crew@, id) <= MAX_CREW_PER_MISSION as nat by {
            lemma_count_push(before, m, id);
        }
        assert forall|i: int, j: int|
            #![trigger crew@[i], crew@[j]]
            0 <= i < crew@.len() && 0 <= j < crew@.len() && i != j implies crew@[i]
            != crew@[j] by {
            if i < before.len() && j < before.len() {
            } else if i < before.len() {
                assert(before.contains(before[i]));
            } else {
                assert(before.contains(before[j]));
            }
        }
    }
    Ok(())
}

fn crew_delete(crew: &mut Vec<CrewMembership>, m: CrewMembership) -> (r: Result<(), MissionError>)
    requires
        crew_ok(old(crew)@),
    ensures
        crew_ok(final(crew)@),
        match spec_delete(old(crew)@, m) {
            Ok(c) => r == Ok::<(), MissionError>(()) && final(crew)@ == c,
            Err(e) => r == Err::<(), MissionError>(e) && final(crew)@ == old(crew)@,
        },
{
    match crew_index(crew, m) {
        None => Err(MissionError::NotFound),
        Some(i) => {
            let ghost before = crew@;
            proof {
                assert(before.contains(m));
                let j = before.index_of(m);
                assert(0 <= j < before.len() && before[j] == m);
                assert(j == i);
            }
            crew.remove(i);
            proof {
                assert(crew@ =~= before.remove(i as int));
                assert forall|id: i32| #[trigger] count_in(crew@, id) <= MAX_CREW_PER_MISSION as nat by {
                    lemma_count_remove(before, i as int, id);
                    assert(count_in(before, id) <= MAX_CREW_PER_MISSION as nat);
                }
                let src = |a: int| if a < i { a } else { a + 1 };
                assert forall|a: int, b: int|
                    #![trigger crew@[a], crew@[b]]
                    0 <= a < crew@.len() && 0 <= b < crew@.len() && a != b implies crew@[a]
                    != crew@[b] by {
                    assert(crew@[a] == before[src(a)] && crew@[b] == before[src(b)]);
                }
            }
            Ok(())
        },
    }
}

/// The mission table and the crew table of one store.
pub struct MissionStore {
    missions: Vec<MissionEntity>,
    crew: Vec<CrewMembership>,
    next_id: i32,
}

impl MissionStore {
    /// The mission rows, in store order.
    pub closed spec fn rows(&self) -> Seq<MissionEntity> {
        self.missions@
    }

    /// The membership rows, in store order.
    pub closed spec fn crew_view(&self) -> Seq<CrewMembership> {
        self.crew@
    }

    /// Whether the store can still assign a fresh mission id.
    pub closed spec fn ids_left(&self) -> bool {
        self.next_id < i32::MAX
    }

    /// Every stored id is below the next id to be assigned.
    pub closed spec fn ids_fresh(&self) -> bool {
        forall|i: int| 0 <= i < self.missions@.len() ==> #[trigger] self.missions@[i].id < self.next_id
    }

    /// The missions by id.
    pub open spec fn missions_view(&self) -> Map<i32, MissionEntity> {
        table(self.rows())
    }

    /// The number of memberships of mission `mission_id`.
    pub open spec fn crew_count(&self, mission_id: i32) -> nat {
        count_in(self.crew_view(), mission_id)
    }

    /// Whether `brawler_id` is a member of mission `mission_id`.
    pub open spec fn is_member(&self, mission_id: i32, brawler_id: i32) -> bool {
        self.crew_view().contains(CrewMembership { mission_id, brawler_id })
    }

    /// The store's invariant.
    pub open spec fn wf(&self) -> bool {
        &&& ids_unique(self.rows())
        &&& crew_ok(self.crew_view())
        &&& self.ids_fresh()
    }

    /// An empty store.
    pub fn new() -> (r: MissionStore)
        ensures
            r.wf(),
            r.rows() == Seq::<MissionEntity>::empty(),
            r.crew_view() == Seq::<CrewMembership>::empty(),
            r.ids_left(),
    {
        let r = MissionStore { missions: Vec::new(), crew: Vec::new(), next_id: 1 };
        assert forall|id: i32| #[trigger] count_in(r.crew@, id) <= MAX_CREW_PER_MISSION as nat by {}
        r
    }

    fn index_of(&self, id: i32) -> (r: Option<usize>)
        requires
            self.wf(),
        ensures
            match r {
                Some(i) => i < self.missions@.len() && self.missions@[i as int].id == id
                    && self.missions_view().contains_key(id) && self.missions_view()[id]
                    == self.missions@[i as int],
                None => !self.missions_view().contains_key(id),
            },
    {
        let mut i: usize = 0;
        while i < self.missions.len()
            invariant
                i <= self.missions@.len(),
                self.wf(),
                forall|j: int| 0 <= j < i ==> self.missions@[j].id != id,
            decreases self.missions@.len() - i,
        {
            if self.missions[i].id == id {
                proof {
                    lemma_table_at(self.missions@, i as int);
                }
                return Some(i);
            }
            i += 1;
        }
        None
    }

    /// The mission with id `id`, if there is one.
    pub fn find(&self, id: i32) -> (r: Option<&MissionEntity>)
        requires
            self.wf(),
        ensures
            match r {
                Some(m) => self.missions_view().contains_key(id) && *m == self.missions_view()[id],
                None => !self.missions_view().contains_key(id),
            },
    {
        match self.index_of(id) {
            Some(i) => Some(&self.missions[i]),
            None => None,
        }
    }

    /// The number of mission rows.
    pub fn len(&self) -> (r: usize)
        ensures
            r == self.rows().len(),
    {
        self.missions.len()
    }

    /// The mission row at position `i` in store order.
    pub fn row(&self, i: usize) -> (r: &MissionEntity)
        requires
            i < self.rows().len(),
        ensures
            *r == self.rows()[i as int],
    {
        &self.missions[i]
    }

    /// The number of memberships of mission `mission_id`.
    pub fn count_crew(&self, mission_id: i32) -> (r: u32)
        requires
            self.wf(),
        ensures
            r as nat == self.crew_count(mission_id),
            r <= MAX_CREW_PER_MISSION,
    {
        crew_count_of(&self.crew, mission_id)
    }

    /// Stores row `entity`, stamped with `now`, under a fresh id and returns
    /// the id; fails with `StoreFailure` once the ids are used up.
    pub fn add(&mut self, entity: AddMissionEntity, now: i64) -> (r: Result<
        i32,
        MissionError,
    >)
        requires
            old(self).wf(),
        ensures
            final(self).wf(),
            final(self).crew_view() == old(self).crew_view(),
            r is Ok <==> old(self).ids_left(),
            match r {
                Ok(id) => !old(self).missions_view().contains_key(id) && final(self).missions_view()
                    == old(self).missions_view().insert(id, created(id, entity, now)),
                Err(e) => e == MissionError::StoreFailure && *final(self) == *old(self),
            },
    {
        if self.next_id == i32::MAX {
            return Err(MissionError::StoreFailure);
        }
        let id = self.next_id;
        let m = MissionEntity {
            id,
            name: entity.name,
            description: entity.description,
            status: entity.status,
            chief_id: entity.chief_id,
            created_at: now,
            updated_at: now,
        };
        proof {
            assert(!has_id(self.missions@, id));
            lemma_table_push(self.missions@, m);
        }
        self.missions.push(m);
        self.next_id = id + 1;
        proof {
            assert forall|i: int| 0 <= i < self.missions@.len() implies #[trigger] self.missions@[i].id
                < self.next_id by {
                if i < self.missions@.len() - 1 {
                    assert(self.missions@[i] == old(self).missions@[i]);
                }
            }
        }
        Ok(id)
    }

    /// Applies `patch` to mission `id`; fails with `NotFound` if it is absent,
    /// with `Unauthorized` if the patch is made for a chief who does not own
    /// it.
    pub fn edit(&mut self, id: i32, patch: EditMissionEntity) -> (r: Result<
        i32,
        MissionError,
    >)
        requires
            old(self).wf(),
        ensures
            final(self).wf(),
            final(self).crew_view() == old(self).crew_view(),
            final(self).ids_left() == old(self).ids_left(),
            match spec_may_edit(old(self).missions_view(), id, patch.chief_id) {
                Ok(_) => r == Ok::<i32, MissionError>(id),
                Err(e) => r == Err::<i32, MissionError>(e),
            },
            match r {
                Ok(_) => final(self).missions_view() == old(self).missions_view().insert(
                    id,
                    patched(old(self).missions_view()[id], patch),
                ),
                Err(_) => *final(self) == *old(self),
            },
    {
        match self.index_of(id) {
            None => Err(MissionError::NotFound),
            Some(i) if patch.chief_id.is_some() && self.missions[i].chief_id != patch.chief_id.unwrap() => {
                Err(MissionError::Unauthorized)
            },
            Some(i) => {
                let cur = &self.missions[i];
                let m = MissionEntity {
                    id: cur.id,
                    name: match patch.name {
                        Some(n) => n,
                        None => cur.name.clone(),
                    },
                    description: match patch.description {
                        Some(d) => Some(d),
                        None => crate::entities::copy_text(&cur.description),
                    },
                    status: cur.status,
                    chief_id: cur.chief_id,
                    created_at: cur.created_at,
                    updated_at: cur.updated_at,
                };
                proof {
                    lemma_table_update(self.missions@, i as int, m);
                }
                self.missions.set(i, m);
                proof {
                    assert forall|j: int| 0 <= j < self.missions@.len() implies #[trigger] self.missions@[j].id
                        < self.next_id by {
                        assert(self.missions@[j].id == old(self).missions@[j].id);
                    }
                }
                Ok(id)
            },
        }
    }

    /// Sets the status of mission `id`; fails with `NotFound` if it is absent.
    pub fn set_status(&mut self, id: i32, status: MissionStatus) -> (r: Result<i32, MissionError>)
        requires
            old(self).wf(),
        ensures
            final(self).wf(),
            final(self).crew_view() == old(self).crew_view(),
            final(self).ids_left() == old(self).ids_left(),
            r is Ok <==> old(self).missions_view().contains_key(id),
            match r {
                Ok(rid) => rid == id && final(self).missions_view() == old(
                    self,
                ).missions_view().insert(id, with_status(old(self).missions_view()[id], status)),
                Err(e) => e == MissionError::NotFound && *final(self) == *old(self),
            },
    {
        match self.index_of(id) {
            None => Err(MissionError::NotFound),
            Some(i) => {
                let mut m = copy_mission(&self.missions[i]);
                m.status = status;
                proof {
                    lemma_table_update(self.missions@, i as int, m);
                }
                self.missions.set(i, m);
                proof {
                    assert forall|j: int| 0 <= j < self.missions@.len() implies #[trigger] self.missions@[j].id
                        < self.next_id by {
                        assert(self.missions@[j].id == old(self).missions@[j].id);
                    }
                }
                Ok(id)
            },
        }
    }

    /// Deletes mission `id` owned by `chief_id`; fails with `NotFound` if it
    /// is absent, with `Unauthorized` if another chief owns it.
    pub fn remove(&mut self, id: i32, chief_id: i32) -> (r: Result<(), MissionError>)
        requires
            old(self).wf(),
        ensures
            final(self).wf(),
            final(self).crew_view() == old(self).crew_view(),
            final(self).ids_left() == old(self).ids_left(),
            r == spec_owned(old(self).missions_view(), id, chief_id),
            match r {
                Ok(()) => final(self).missions_view() == old(self).missions_view().remove(id),
                Err(_) => *final(self) == *old(self),
            },
    {
        match self.index_of(id) {
            None => Err(MissionError::NotFound),
            Some(i) if self.missions[i].chief_id != chief_id => Err(MissionError::Unauthorized),
            Some(i) => {
                proof {
                    lemma_table_remove(self.missions@, i as int);
                }
                self.missions.remove(i);
                proof {
                    let s = old(self).missions@;
                    assert forall|j: int| 0 <= j < self.missions@.len() implies #[trigger] self.missions@[j].id
                        < self.next_id by {
                        if j < i {
                            assert(self.missions@[j] == s[j]);
                        } else {
                            assert(self.missions@[j] == s[j + 1]);
                        }
                    }
                }
                Ok(())
            },
        }
    }

    /// Inserts membership `m`: fails with `Conflict` if it exists, with
    /// `MissionFull` if its mission is at the ceiling.
    pub fn insert_crew(&mut self, m: CrewMembership) -> (r: Result<(), MissionError>)
        requires
            old(self).wf(),
        ensures
            final(self).wf(),
            final(self).rows() == old(self).rows(),
            final(self).ids_left() == old(self).ids_left(),
            match spec_insert(old(self).crew_view(), m) {
                Ok(c) => r == Ok::<(), MissionError>(()) && final(self).crew_view() == c,
                Err(e) => r == Err::<(), MissionError>(e) && final(self).crew_view() == old(
                    self,
                ).crew_view(),
            },
    {
        crew_insert(&mut self.crew, m)
    }

    /// Deletes membership `m`: fails with `NotFound` if it does not exist.
    pub fn delete_crew(&mut self, m: CrewMembership) -> (r: Result<(), MissionError>)
        requires
            old(self).wf(),
        ensures
            final(self).wf(),
            final(self).rows() == old(self).rows(),
            final(self).ids_left() == old(self).ids_left(),
            match spec_delete(old(self).crew_view(), m) {
                Ok(c) => r == Ok::<(), MissionError>(()) && final(self).crew_view() == c,
                Err(e) => r == Err::<(), MissionError>(e) && final(self).crew_view() == old(
                    self,
                ).crew_view(),
            },
    {
        crew_delete(&mut self.crew, m)
    }

    /// Runs the crew writes `ops` as one unit of work: every write takes
    /// effect, or, at the first failing write, none does and its error is
    /// returned unchanged.
    pub fn run_crew_transaction(&mut self, ops: &Vec<CrewCommand>) -> (r: Result<(), MissionError>)
        requires
            old(self).wf(),
        ensures
            final(self).wf(),
            final(self).rows() == old(self).rows(),
            final(self).ids_left() == old(self).ids_left(),
            final(self).crew_view() == spec_committed(old(self).crew_view(), ops@),
            match spec_apply_all(old(self).crew_view(), ops@) {
                Ok(_) => r == Ok::<(), MissionError>(()),
                Err(e) => r == Err::<(), MissionError>(e) && *final(self) == *old(self),
            },
    {
        let mut work: Vec<CrewMembership> = Vec::new();
        let mut k: usize = 0;
        while k < self.crew.len()
            invariant
                k <= self.crew@.len(),
                work@ == self.crew@.subrange(0, k as int),
            decreases self.crew@.len() - k,
        {
            work.push(self.crew[k]);
            k += 1;
        }
        assert(work@ =~= self.crew@);
        let ghost start = self.crew@;
        assert(ops@.subrange(0, ops@.len() as int) =~= ops@);
        let mut i: usize = 0;
        while i < ops.len()
            invariant
                i <= ops@.len(),
                crew_ok(work@),
                self.wf(),
                self.crew@ == start,
                *self == *old(self),
                spec_apply_all(start, ops@) == spec_apply_all(work@, ops@.subrange(i as int, ops@.len() as int)),
            decreases ops@.len() - i,
        {
            let ghost rest = ops@.subrange(i as int, ops@.len() as int);
            let ghost before = work@;
            assert(rest[0] == ops@[i as int]);
            assert(rest.drop_first() =~= ops@.subrange(i + 1, ops@.len() as int));
            let step = match ops[i] {
                CrewCommand::Insert(m) => crew_insert(&mut work, m),
                CrewCommand::Delete(m) => crew_delete(&mut work, m),
            };
            match step {
                Err(e) => {
                    return Err(e);
                },
                Ok(()) => {},
            }
            i += 1;
        }
        assert(ops@.subrange(ops@.len() as int, ops@.len() as int) =~= Seq::<CrewCommand>::empty());
        self.crew = work;
        Ok(())
    }
}

} // verus!

verus! {

impl crate::repositories::CrewOperationRepository for MissionStore {
    open spec fn crew_rows(&self) -> Seq<CrewMembership> {
        self.crew_view()
    }

    open spec fn crew_wf(&self) -> bool {
        self.wf()
    }

    proof fn lemma_crew_ok(&self) {
    }

    fn join(&mut self, crew_membership: CrewMembership) -> (r: Result<(), MissionError>) {
        self.insert_crew(crew_membership)
    }

    fn leave(&mut self, crew_membership: CrewMembership) -> (r: Result<(), MissionError>) {
        self.delete_crew(crew_membership)
    }
}

impl crate::repositories::TransactionProvider for MissionStore {
    fn transaction(&mut self, ops: &Vec<CrewCommand>) -> (r: Result<(), MissionError>) {
        self.run_crew_transaction(ops)
    }
}

} // verus!
