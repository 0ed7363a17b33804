//! Git repositories and the state of their clone and index.

use vstd::prelude::*;
use crate::clock::now_millis;
use crate::ident::{fresh_id, is_uuid_v4_text};
use crate::text::same_text;

verus! {

/// How far the clone of a repository is.
#[derive(Debug, Clone, Copy, PartialEq, Eq, Structural)]
pub enum CloneStatus {
    Pending,
    Cloning,
    Completed,
    Failed,
}

impl CloneStatus {
    /// The name under which a clone status is stored.
    pub open spec fn name(self) -> Seq<char> {
        match self {
            CloneStatus::Pending => "pending"@,
            CloneStatus::Cloning => "cloning"@,
            CloneStatus::Completed => "completed"@,
            CloneStatus::Failed => "failed"@,
        }
    }

    /// What a stored name stands for, if it is one of the names.
    pub open spec fn named(s: Seq<char>) -> Option<CloneStatus> {
        if s == "pending"@ {
            Some(CloneStatus::Pending)
        } else if s == "cloning"@ {
            Some(CloneStatus::Cloning)
        } else if s == "completed"@ {
            Some(CloneStatus::Completed)
        } else if s == "failed"@ {
            Some(CloneStatus::Failed)
        } else {
            None
        }
    }

    /// The name of the value.
    pub fn as_str(&self) -> (s: &'static str)
        ensures
            s@ == self.name(),
    {
        match self {
            CloneStatus::Pending => "pending",
            CloneStatus::Cloning => "cloning",
            CloneStatus::Completed => "completed",
            CloneStatus::Failed => "failed",
        }
    }

    /// The value that `s` names, if it names one.
    pub fn parse(s: &str) -> (parsed: Option<Self>)
        ensures
            parsed == Self::named(s@),
    {
        if same_text(s, "pending") {
            Some(CloneStatus::Pending)
        } else if same_text(s, "cloning") {
            Some(CloneStatus::Cloning)
        } else if same_text(s, "completed") {
            Some(CloneStatus::Completed)
        } else if same_text(s, "failed") {
            Some(CloneStatus::Failed)
        } else {
            None
        }
    }

    /// The names are distinct: parsing a name gives back what it names.
    pub proof fn lemma_parse_inverts_name(value: CloneStatus)
        ensures
            Self::named(value.name()) == Some(value),
    {
        reveal_strlit("pending");
        reveal_strlit("cloning");
        reveal_strlit("completed");
        reveal_strlit("failed");
        assert("pending"@.len() == 7);
        assert("pending"@[0] == 'p' && "pending"@[1] == 'e' && "pending"@[2] == 'n');
        assert("cloning"@.len() == 7);
        assert("cloning"@[0] == 'c' && "cloning"@[1] == 'l' && "cloning"@[2] == 'o');
        assert("completed"@.len() == 9);
        assert("completed"@[0] == 'c' && "completed"@[1] == 'o' && "completed"@[2] == 'm');
        assert("failed"@.len() == 6);
        assert("failed"@[0] == 'f' && "failed"@[1] == 'a' && "failed"@[2] == 'i');
    }
}

/// How far the index of a repository is.
#[derive(Debug, Clone, Copy, PartialEq, Eq, Structural)]
pub enum IndexStatus {
    NotIndexed,
    Indexing,
    Indexed,
    Failed,
}

impl IndexStatus {
    /// The name under which an index status is stored.
    pub open spec fn name(self) -> Seq<char> {
        match self {
            IndexStatus::NotIndexed => "not_indexed"@,
            IndexStatus::Indexing => "indexing"@,
            IndexStatus::Indexed => "indexed"@,
            IndexStatus::Failed => "failed"@,
        }
    }

    /// What a stored name stands for, if it is one of the names.
    pub open spec fn named(s: Seq<char>) -> Option<IndexStatus> {
        if s == "not_indexed"@ {
            Some(IndexStatus::NotIndexed)
        } else if s == "indexing"@ {
            Some(IndexStatus::Indexing)
        } else if s == "indexed"@ {
            Some(IndexStatus::Indexed)
        } else if s == "failed"@ {
            Some(IndexStatus::Failed)
        } else {
            None
        }
    }

    /// The name of the value.
    pub fn as_str(&self) -> (s: &'static str)
        ensures
            s@ == self.name(),
    {
        match self {
            IndexStatus::NotIndexed => "not_indexed",
            IndexStatus::Indexing => "indexing",
            IndexStatus::Indexed => "indexed",
            IndexStatus::Failed => "failed",
        }
    }

    /// The value that `s` names, if it names one.
    pub fn parse(s: &str) -> (parsed: Option<Self>)
        ensures
            parsed == Self::named(s@),
    {
        if same_text(s, "not_indexed") {
            Some(IndexStatus::NotIndexed)
        } else if same_text(s, "indexing") {
            Some(IndexStatus::Indexing)
        } else if same_text(s, "indexed") {
            Some(IndexStatus::Indexed)
        } else if same_text(s, "failed") {
            Some(IndexStatus::Failed)
        } else {
            None
        }
    }

    /// The names are distinct: parsing a name gives back what it names.
    pub proof fn lemma_parse_inverts_name(value: IndexStatus)
        ensures
            Self::named(value.name()) == Some(value),
    {
        reveal_strlit("not_indexed");
        reveal_strlit("indexing");
        reveal_strlit("indexed");
        reveal_strlit("failed");
        assert("not_indexed"@.len() == 11);
        assert("not_indexed"@[0] == 'n' && "not_indexed"@[1] == 'o' && "not_indexed"@[2] == 't');
        assert("indexing"@.len() == 8);
        assert("indexing"@[0] == 'i' && "indexing"@[1] == 'n' && "indexing"@[2] == 'd');
        assert("indexed"@.len() == 7);
        assert("indexed"@[0] == 'i' && "indexed"@[1] == 'n' && "indexed"@[2] == 'd');
        assert("failed"@.len() == 6);
        assert("failed"@[0] == 'f' && "failed"@[1] == 'a' && "failed"@[2] == 'i');
    }
}

/// A git repository of a workspace.
#[derive(Debug, Clone)]
pub struct GitRepository {
    pub id: String,
    pub workspace_id: String,
    pub name: String,
    pub remote_url: String,
    pub local_path: String,
    pub branch: String,
    pub default_branch: Option<String>,
    pub last_commit_hash: Option<String>,
    pub last_synced_at: Option<i64>,
    pub clone_status: CloneStatus,
    pub clone_progress: i32,
    pub index_status: IndexStatus,
    pub indexed_at: Option<i64>,
    pub file_count: i32,
    pub symbol_count: i32,
    pub vector_count: i32,
    pub is_archived: bool,
    pub created_at: i64,
    pub updated_at: i64,
}

impl GitRepository {
    /// The value that a new repository starts with.
    pub open spec fn created(
        id: String,
        now: i64,
        workspace_id: String,
        name: String,
        remote_url: String,
        local_path: String,
        branch: String,
    ) -> GitRepository {
        GitRepository {
            id,
            workspace_id,
            name,
            remote_url,
            local_path,
            branch: branch,
            default_branch: Some(branch),
            last_commit_hash: None,
            last_synced_at: None,
            clone_status: CloneStatus::Pending,
            clone_progress: 0,
            index_status: IndexStatus::NotIndexed,
            indexed_at: None,
            file_count: 0,
            symbol_count: 0,
            vector_count: 0,
            is_archived: false,
            created_at: now,
            updated_at: now,
        }
    }

    /// A new repository with a fresh identifier, created at the current time.
    pub fn new(
        workspace_id: String,
        name: String,
        remote_url: String,
        local_path: String,
        branch: String,
    ) -> (made: Self)
        ensures
            exists|id: String, now: i64| made == Self::created(
                id,
                now,
                workspace_id,
                name,
                remote_url,
                local_path,
                branch,
            ),
            is_uuid_v4_text(made.id@),
    {
        let id = fresh_id();
        let now = now_millis();
        let made = Self::new_at(id, now, workspace_id, name, remote_url, local_path, branch);
        assert(made == Self::created(id, now, workspace_id, name, remote_url, local_path, branch));
        made
    }

    /// A new repository with the identifier `id`, created at time `now`.
    pub fn new_at(
        id: String,
        now: i64,
        workspace_id: String,
        name: String,
        remote_url: String,
        local_path: String,
        branch: String,
    ) -> (made: Self)
        ensures
            made == Self::created(id, now, workspace_id, name, remote_url, local_path, branch),
    {
        let branch_copy = branch.clone();
        GitRepository {
            id,
            workspace_id,
            name,
            remote_url,
            local_path,
            branch: branch_copy,
            default_branch: Some(branch),
            last_commit_hash: None,
            last_synced_at: None,
            clone_status: CloneStatus::Pending,
            clone_progress: 0,
            index_status: IndexStatus::NotIndexed,
            indexed_at: None,
            file_count: 0,
            symbol_count: 0,
            vector_count: 0,
            is_archived: false,
            created_at: now,
            updated_at: now,
        }
    }
}

} // verus!
