//! Index jobs and the index entries of files.

use vstd::prelude::*;
use crate::clock::now_millis;
use crate::ident::{fresh_id, is_uuid_v4_text};
use crate::text::same_text;

verus! {

/// How much of a repository an index job covers.
#[derive(Debug, Clone, Copy, PartialEq, Eq, Structural)]
pub enum IndexJobType {
    Full,
    Incremental,
}

impl IndexJobType {
    /// The name under which an index job type is stored.
    pub open spec fn name(self) -> Seq<char> {
        match self {
            IndexJobType::Full => "full"@,
            IndexJobType::Incremental => "incremental"@,
        }
    }

    /// What a stored name stands for, if it is one of the names.
    pub open spec fn named(s: Seq<char>) -> Option<IndexJobType> {
        if s == "full"@ {
            Some(IndexJobType::Full)
        } else if s == "incremental"@ {
            Some(IndexJobType::Incremental)
        } else {
            None
        }
    }

    /// The name of the value.
    pub fn as_str(&self) -> (s: &'static str)
        ensures
            s@ == self.name(),
    {
        match self {
            IndexJobType::Full => "full",
            IndexJobType::Incremental => "incremental",
        }
    }

    /// The value that `s` names, if it names one.
    pub fn parse(s: &str) -> (parsed: Option<Self>)
        ensures
            parsed == Self::named(s@),
    {
        if same_text(s, "full") {
            Some(IndexJobType::Full)
        } else if same_text(s, "incremental") {
            Some(IndexJobType::Incremental)
        } else {
            None
        }
    }

    /// The names are distinct: parsing a name gives back what it names.
    pub proof fn lemma_parse_inverts_name(value: IndexJobType)
        ensures
            Self::named(value.name()) == Some(value),
    {
        reveal_strlit("full");
        reveal_strlit("incremental");
        assert("full"@.len() == 4);
        assert("full"@[0] == 'f' && "full"@[1] == 'u' && "full"@[2] == 'l');
        assert("incremental"@.len() == 11);
        assert("incremental"@[0] == 'i' && "incremental"@[1] == 'n' && "incremental"@[2] == 'c');
    }
}

/// Where an index job stands.
#[derive(Debug, Clone, Copy, PartialEq, Eq, Structural)]
pub enum IndexJobStatus {
    Pending,
    Running,
    Completed,
    Failed,
    Cancelled,
}

impl IndexJobStatus {
    /// The name under which an index job status is stored.
    pub open spec fn name(self) -> Seq<char> {
        match self {
            IndexJobStatus::Pending => "pending"@,
            IndexJobStatus::Running => "running"@,
            IndexJobStatus::Completed => "completed"@,
            IndexJobStatus::Failed => "failed"@,
            IndexJobStatus::Cancelled => "cancelled"@,
        }
    }

    /// What a stored name stands for, if it is one of the names.
    pub open spec fn named(s: Seq<char>) -> Option<IndexJobStatus> {
        if s == "pending"@ {
            Some(IndexJobStatus::Pending)
        } else if s == "running"@ {
            Some(IndexJobStatus::Running)
        } else if s == "completed"@ {
            Some(IndexJobStatus::Completed)
        } else if s == "failed"@ {
            Some(IndexJobStatus::Failed)
        } else if s == "cancelled"@ {
            Some(IndexJobStatus::Cancelled)
        } else {
            None
        }
    }

    /// The name of the value.
    pub fn as_str(&self) -> (s: &'static str)
        ensures
            s@ == self.name(),
    {
        match self {
            IndexJobStatus::Pending => "pending",
            IndexJobStatus::Running => "running",
            IndexJobStatus::Completed => "completed",
            IndexJobStatus::Failed => "failed",
            IndexJobStatus::Cancelled => "cancelled",
        }
    }

    /// The value that `s` names, if it names one.
    pub fn parse(s: &str) -> (parsed: Option<Self>)
        ensures
            parsed == Self::named(s@),
    {
        if same_text(s, "pending") {
            Some(IndexJobStatus::Pending)
        } else if same_text(s, "running") {
            Some(IndexJobStatus::Running)
        } else if same_text(s, "completed") {
            Some(IndexJobStatus::Completed)
        } else if same_text(s, "failed") {
            Some(IndexJobStatus::Failed)
        } else if same_text(s, "cancelled") {
            Some(IndexJobStatus::Cancelled)
        } else {
            None
        }
    }

    /// The names are distinct: parsing a name gives back what it names.
    pub proof fn lemma_parse_inverts_name(value: IndexJobStatus)
        ensures
            Self::named(value.name()) == Some(value),
    {
        reveal_strlit("pending");
        reveal_strlit("running");
        reveal_strlit("completed");
        reveal_strlit("failed");
        reveal_strlit("cancelled");
        assert("pending"@.len() == 7);
        assert("pending"@[0] == 'p' && "pending"@[1] == 'e' && "pending"@[2] == 'n');
        assert("running"@.len() == 7);
        assert("running"@[0] == 'r' && "running"@[1] == 'u' && "running"@[2] == 'n');
        assert("completed"@.len() == 9);
        assert("completed"@[0] == 'c' && "completed"@[1] == 'o' && "completed"@[2] == 'm');
        assert("failed"@.len() == 6);
        assert("failed"@[0] == 'f' && "failed"@[1] == 'a' && "failed"@[2] == 'i');
        assert("cancelled"@.len() == 9);
        assert("cancelled"@[0] == 'c' && "cancelled"@[1] == 'a' && "cancelled"@[2] == 'n');
    }
}

/// One run of the indexer over a repository.
#[derive(Debug, Clone)]
pub struct IndexJob {
    pub id: String,
    pub repo_id: String,
    pub job_type: IndexJobType,
    pub status: IndexJobStatus,
    pub progress: i32,
    pub total_files: Option<i32>,
    pub processed_files: i32,
    pub total_symbols: Option<i32>,
    pub processed_symbols: i32,
    pub error_message: Option<String>,
    pub metadata: Option<String>,
    pub started_at: Option<i64>,
    pub completed_at: Option<i64>,
    pub created_at: i64,
}

impl IndexJob {
    /// The value that a new index job starts with.
    pub open spec fn created(
        id: String,
        now: i64,
        repo_id: String,
        job_type: IndexJobType,
    ) -> IndexJob {
        IndexJob {
            id,
            repo_id,
            job_type,
            status: IndexJobStatus::Pending,
            progress: 0,
            total_files: None,
            processed_files: 0,
            total_symbols: None,
            processed_symbols: 0,
            error_message: None,
            metadata: None,
            started_at: None,
            completed_at: None,
            created_at: now,
        }
    }

    /// A new index job with a fresh identifier, created at the current time.
    pub fn new(repo_id: String, job_type: IndexJobType) -> (made: Self)
        ensures
            exists|id: String, now: i64| made == Self::created(id, now, repo_id, job_type),
            is_uuid_v4_text(made.id@),
    {
        let id = fresh_id();
        let now = now_millis();
        let made = Self::new_at(id, now, repo_id, job_type);
        assert(made == Self::created(id, now, repo_id, job_type));
        made
    }

    /// A new index job with the identifier `id`, created at time `now`.
    pub fn new_at(id: String, now: i64, repo_id: String, job_type: IndexJobType) -> (made: Self)
        ensures
            made == Self::created(id, now, repo_id, job_type),
    {
        IndexJob {
            id,
            repo_id,
            job_type,
            status: IndexJobStatus::Pending,
            progress: 0,
            total_files: None,
            processed_files: 0,
            total_symbols: None,
            processed_symbols: 0,
            error_message: None,
            metadata: None,
            started_at: None,
            completed_at: None,
            created_at: now,
        }
    }
}

/// What the index knows of one file of a repository.
#[derive(Debug, Clone)]
pub struct IndexMetadata {
    pub id: String,
    pub repo_id: String,
    pub file_path: String,
    pub content_hash: String,
    pub last_indexed_at: i64,
    pub symbol_count: i32,
    pub language: Option<String>,
    pub file_size: Option<i64>,
}

impl IndexMetadata {
    /// The value that a new index entry starts with.
    pub open spec fn created(
        id: String,
        now: i64,
        repo_id: String,
        file_path: String,
        content_hash: String,
        symbol_count: i32,
    ) -> IndexMetadata {
        IndexMetadata {
            id,
            repo_id,
            file_path,
            content_hash,
            last_indexed_at: now,
            symbol_count,
            language: None,
            file_size: None,
        }
    }

    /// A new index entry with a fresh identifier, created at the current time.
    pub fn new(
        repo_id: String,
        file_path: String,
        content_hash: String,
        symbol_count: i32,
    ) -> (made: Self)
        ensures
            exists|id: String, now: i64| made == Self::created(
                id,
                now,
                repo_id,
                file_path,
                content_hash,
                symbol_count,
            ),
            is_uuid_v4_text(made.id@),
    {
        let id = fresh_id();
        let now = now_millis();
        let made = Self::new_at(id, now, repo_id, file_path, content_hash, symbol_count);
        assert(made == Self::created(id, now, repo_id, file_path, content_hash, symbol_count));
        made
    }

    /// A new index entry with the identifier `id`, created at time `now`.
    pub fn new_at(
        id: String,
        now: i64,
        repo_id: String,
        file_path: String,
        content_hash: String,
        symbol_count: i32,
    ) -> (made: Self)
        ensures
            made == Self::created(id, now, repo_id, file_path, content_hash, symbol_count),
    {
        IndexMetadata {
            id,
            repo_id,
            file_path,
            content_hash,
            last_indexed_at: now,
            symbol_count,
            language: None,
            file_size: None,
        }
    }
}

} // verus!
