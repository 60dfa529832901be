use vstd::prelude::*;

verus! {

/// The ceiling on the number of memberships of one mission.
pub const MAX_CREW_PER_MISSION: u32 = 10;

/// Where a mission stands in its lifecycle.
#[derive(Clone, Copy, Debug, PartialEq, Eq, Structural)]
pub enum MissionStatus {
    Open,
    InProgress,
    Completed,
    Failed,
}

/// A stored mission. Timestamps are seconds since the Unix epoch.
#[derive(Clone, Debug)]
pub struct MissionEntity {
    pub id: i32,
    pub name: String,
    pub description: Option<String>,
    pub status: MissionStatus,
    pub chief_id: i32,
    pub created_at: i64,
    pub updated_at: i64,
}

/// One participant's membership of one mission.
#[derive(Clone, Copy, Debug, PartialEq, Eq, Structural)]
pub struct CrewMembership {
    pub mission_id: i32,
    pub brawler_id: i32,
}

/// The fields a caller supplies to create a mission.
#[derive(Clone, Debug)]
pub struct NewMissionModel {
    pub name: String,
    pub description: Option<String>,
}

/// The row that `add` inserts: the new mission's fields before an id is
/// assigned.
#[derive(Clone, Debug)]
pub struct AddMissionEntity {
    pub name: String,
    pub description: Option<String>,
    pub status: MissionStatus,
    pub chief_id: i32,
}

/// The change set that `edit` applies: a field left `None` keeps its stored
/// value. `chief_id`, when set, names the chief the edit is made for; the
/// stored chief never changes.
#[derive(Clone, Debug)]
pub struct EditMissionEntity {
    pub name: Option<String>,
    pub description: Option<String>,
    pub chief_id: Option<i32>,
}

/// A partial update: a field left `None` keeps its stored value.
#[derive(Clone, Debug)]
pub struct UpdateMissionModel {
    pub name: Option<String>,
    pub description: Option<String>,
}

/// A mission as read back, with its current crew count.
#[derive(Clone, Debug, PartialEq, Eq)]
pub struct MissionModel {
    pub id: i32,
    pub name: String,
    pub description: Option<String>,
    pub status: MissionStatus,
    pub chief_id: i32,
    pub crew_count: u32,
    pub created_at: i64,
    pub updated_at: i64,
}

/// Selects missions by status and by chief; an unset field selects all.
#[derive(Clone, Copy, Debug, PartialEq, Eq, Structural)]
pub struct MissionFilter {
    pub status: Option<MissionStatus>,
    pub chief_id: Option<i32>,
}

impl MissionFilter {
    /// The filter that selects every mission.
    pub fn all() -> (r: MissionFilter)
        ensures
            r.status.is_none(),
            r.chief_id.is_none(),
    {
        MissionFilter { status: None, chief_id: None }
    }

    pub open spec fn spec_matches(self, m: MissionEntity) -> bool {
        &&& (self.status matches Some(s) ==> m.status == s)
        &&& (self.chief_id matches Some(c) ==> m.chief_id == c)
    }

    /// Whether `m` is selected by this filter.
    pub fn matches(&self, m: &MissionEntity) -> (r: bool)
        ensures
            r == self.spec_matches(*m),
    {
        let status_ok = match self.status {
            Some(s) => m.status == s,
            None => true,
        };
        let chief_ok = match self.chief_id {
            Some(c) => m.chief_id == c,
            None => true,
        };
        status_ok && chief_ok
    }
}

impl Default for MissionFilter {
    /// The filter that selects every mission.
    fn default() -> (r: MissionFilter)
        ensures
            r.status.is_none(),
            r.chief_id.is_none(),
    {
        MissionFilter::all()
    }
}

/// The read model of `m` with `crew_count` attached.
pub open spec fn model_of(m: MissionEntity, crew_count: u32) -> MissionModel {
    MissionModel {
        id: m.id,
        name: m.name,
        description: m.description,
        status: m.status,
        chief_id: m.chief_id,
        crew_count,
        created_at: m.created_at,
        updated_at: m.updated_at,
    }
}

/// Copies an optional text field.
pub fn copy_text(t: &Option<String>) -> (r: Option<String>)
    ensures
        r == *t,
{
    match t {
        Some(s) => Some(s.clone()),
        None => None,
    }
}

/// `m` with its status replaced by `status`.
pub open spec fn with_status(m: MissionEntity, status: MissionStatus) -> MissionEntity {
    MissionEntity {
        id: m.id,
        name: m.name,
        description: m.description,
        status,
        chief_id: m.chief_id,
        created_at: m.created_at,
        updated_at: m.updated_at,
    }
}

/// `m` with the name and description that `patch` sets replaced, the others
/// kept.
pub open spec fn patched(m: MissionEntity, patch: EditMissionEntity) -> MissionEntity {
    MissionEntity {
        id: m.id,
        name: match patch.name {
            Some(n) => n,
            None => m.name,
        },
        description: match patch.description {
            Some(d) => Some(d),
            None => m.description,
        },
        status: m.status,
        chief_id: m.chief_id,
        created_at: m.created_at,
        updated_at: m.updated_at,
    }
}

/// The mission that `add` stores for row `entity` under `id` at time `now`.
pub open spec fn created(id: i32, entity: AddMissionEntity, now: i64) -> MissionEntity {
    MissionEntity {
        id,
        name: entity.name,
        description: entity.description,
        status: entity.status,
        chief_id: entity.chief_id,
        created_at: now,
        updated_at: now,
    }
}

/// The row of a new Open mission of `chief_id`.
pub open spec fn spec_add_entity(chief_id: i32, new_mission: NewMissionModel) -> AddMissionEntity {
    AddMissionEntity {
        name: new_mission.name,
        description: new_mission.description,
        status: MissionStatus::Open,
        chief_id,
    }
}

/// The change set of an edit by `chief_id`.
pub open spec fn spec_edit_entity(chief_id: i32, patch: UpdateMissionModel) -> EditMissionEntity {
    EditMissionEntity { name: patch.name, description: patch.description, chief_id: Some(chief_id) }
}

impl NewMissionModel {
    /// The row of a new Open mission of `chief_id`.
    pub fn to_entity(self, chief_id: i32) -> (r: AddMissionEntity)
        ensures
            r == spec_add_entity(chief_id, self),
    {
        AddMissionEntity {
            name: self.name,
            description: self.description,
            status: MissionStatus::Open,
            chief_id,
        }
    }
}

impl UpdateMissionModel {
    /// The change set of an edit by `chief_id`.
    pub fn to_entity(self, chief_id: i32) -> (r: EditMissionEntity)
        ensures
            r == spec_edit_entity(chief_id, self),
    {
        EditMissionEntity { name: self.name, description: self.description, chief_id: Some(chief_id) }
    }
}

/// Copies a mission field by field.
pub fn copy_mission(m: &MissionEntity) -> (r: MissionEntity)
    ensures
        r == *m,
{
    MissionEntity {
        id: m.id,
        name: m.name.clone(),
        description: copy_text(&m.description),
        status: m.status,
        chief_id: m.chief_id,
        created_at: m.created_at,
        updated_at: m.updated_at,
    }
}

/// Builds the read model of `m` with `crew_count` attached.
pub fn to_model(m: &MissionEntity, crew_count: u32) -> (r: MissionModel)
    ensures
        r == model_of(*m, crew_count),
{
    MissionModel {
        id: m.id,
        name: m.name.clone(),
        description: copy_text(&m.description),
        status: m.status,
        chief_id: m.chief_id,
        crew_count,
        created_at: m.created_at,
        updated_at: m.updated_at,
    }
}

} // verus!
