//! Workspaces.

use vstd::prelude::*;
use crate::clock::now_millis;
use crate::ident::{fresh_id, is_uuid_v4_text};

verus! {

/// A workspace: the container of notes, files, repositories, links and chats.
#[derive(Debug, Clone)]
pub struct Workspace {
    pub id: String,
    pub name: String,
    pub description: Option<String>,
    pub icon: Option<String>,
    pub color: Option<String>,
    pub sort_order: i32,
    pub is_active: bool,
    pub is_archived: bool,
    pub settings: Option<String>,
    pub created_at: i64,
    pub updated_at: i64,
}

impl Workspace {
    /// The value that a new workspace starts with.
    pub open spec fn created(
        id: String,
        now: i64,
        name: String,
        description: Option<String>,
    ) -> Workspace {
        Workspace {
            id,
            name,
            description,
            icon: None,
            color: None,
            sort_order: 0,
            is_active: false,
            is_archived: false,
            settings: None,
            created_at: now,
            updated_at: now,
        }
    }

    /// A new workspace with a fresh identifier, created at the current time.
    pub fn new(name: String, description: Option<String>) -> (made: Self)
        ensures
            exists|id: String, now: i64| made == Self::created(id, now, name, description),
            is_uuid_v4_text(made.id@),
    {
        let id = fresh_id();
        let now = now_millis();
        let made = Self::new_at(id, now, name, description);
        assert(made == Self::created(id, now, name, description));
        made
    }

    /// A new workspace with the identifier `id`, created at time `now`.
    pub fn new_at(id: String, now: i64, name: String, description: Option<String>) -> (made: Self)
        ensures
            made == Self::created(id, now, name, description),
    {
        Workspace {
            id,
            name,
            description,
            icon: None,
            color: None,
            sort_order: 0,
            is_active: false,
            is_archived: false,
            settings: None,
            created_at: now,
            updated_at: now,
        }
    }
}

/// How many resources of each kind a workspace holds.
#[derive(Debug, Clone)]
pub struct WorkspaceResourceCount {
    pub notes: i32,
    pub files: i32,
    pub directories: i32,
    pub repositories: i32,
    pub links: i32,
    pub conversations: i32,
    pub terminals: i32,
    pub webviews: i32,
    pub chats: i32,
}

} // verus!
