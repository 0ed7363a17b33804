//! Terminals.

use vstd::prelude::*;
use crate::clock::now_millis;
use crate::ident::{fresh_id, is_uuid_v4_text};

verus! {

/// A terminal of a workspace, with its history as JSON text.
#[derive(Debug, Clone)]
pub struct Terminal {
    pub id: String,
    pub workspace_id: String,
    pub name: String,
    pub shell: String,
    pub cwd: String,
    pub env: Option<String>,
    pub history: String,
    pub history_count: i32,
    pub is_active: bool,
    pub is_archived: bool,
    pub last_command_at: Option<i64>,
    pub created_at: i64,
    pub updated_at: i64,
}

impl Terminal {
    /// The value that a new terminal starts with.
    pub open spec fn created(
        id: String,
        now: i64,
        workspace_id: String,
        name: String,
        shell: String,
        cwd: String,
        history: String,
    ) -> Terminal {
        Terminal {
            id,
            workspace_id,
            name,
            shell,
            cwd,
            env: None,
            history,
            history_count: 0,
            is_active: false,
            is_archived: false,
            last_command_at: None,
            created_at: now,
            updated_at: now,
        }
    }

    /// A new terminal with a fresh identifier, created at the current time.
    pub fn new(workspace_id: String, name: String, shell: String, cwd: String) -> (made: Self)
        ensures
            exists|id: String, now: i64| made == Self::created(
                id,
                now,
                workspace_id,
                name,
                shell,
                cwd,
                made.history,
            ),
            is_uuid_v4_text(made.id@),
            made.history@ == "[]"@,
    {
        let id = fresh_id();
        let now = now_millis();
        let made = Self::new_at(id, now, workspace_id, name, shell, cwd);
        assert(made == Self::created(id, now, workspace_id, name, shell, cwd, made.history));
        made
    }

    /// A new terminal with the identifier `id`, created at time `now`.
    pub fn new_at(
        id: String,
        now: i64,
        workspace_id: String,
        name: String,
        shell: String,
        cwd: String,
    ) -> (made: Self)
        ensures
            made == Self::created(id, now, workspace_id, name, shell, cwd, made.history),
            made.history@ == "[]"@,
    {
        Terminal {
            id,
            workspace_id,
            name,
            shell,
            cwd,
            env: None,
            history: "[]".to_owned(),
            history_count: 0,
            is_active: false,
            is_archived: false,
            last_command_at: None,
            created_at: now,
            updated_at: now,
        }
    }
}

} // verus!
