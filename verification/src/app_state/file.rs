//! Imported files and directories.

use vstd::prelude::*;
use crate::clock::now_millis;
use crate::ident::{fresh_id, is_uuid_v4_text};

verus! {

/// A file that was imported into a workspace.
#[derive(Debug, Clone)]
pub struct ImportedFile {
    pub id: String,
    pub workspace_id: String,
    pub parent_directory_id: Option<String>,
    pub name: String,
    pub original_path: String,
    pub stored_path: String,
    pub file_type: String,
    pub size_bytes: i64,
    pub mime_type: Option<String>,
    pub checksum: Option<String>,
    pub is_archived: bool,
    pub created_at: i64,
    pub updated_at: i64,
}

impl ImportedFile {
    /// The value that a new imported file starts with.
    pub open spec fn created(
        id: String,
        now: i64,
        workspace_id: String,
        name: String,
        original_path: String,
        stored_path: String,
        file_type: String,
        size_bytes: i64,
    ) -> ImportedFile {
        ImportedFile {
            id,
            workspace_id,
            parent_directory_id: None,
            name,
            original_path,
            stored_path,
            file_type,
            size_bytes,
            mime_type: None,
            checksum: None,
            is_archived: false,
            created_at: now,
            updated_at: now,
        }
    }

    /// A new imported file with a fresh identifier, created at the current time.
    pub fn new(
        workspace_id: String,
        name: String,
        original_path: String,
        stored_path: String,
        file_type: String,
        size_bytes: i64,
    ) -> (made: Self)
        ensures
            exists|id: String, now: i64| made == Self::created(
                id,
                now,
                workspace_id,
                name,
                original_path,
                stored_path,
                file_type,
                size_bytes,
            ),
            is_uuid_v4_text(made.id@),
    {
        let id = fresh_id();
        let now = now_millis();
        let made = Self::new_at(
            id,
            now,
            workspace_id,
            name,
            original_path,
            stored_path,
            file_type,
            size_bytes,
        );
        assert(made == Self::created(
            id,
            now,
            workspace_id,
            name,
            original_path,
            stored_path,
            file_type,
            size_bytes,
        ));
        made
    }

    /// A new imported file with the identifier `id`, created at time `now`.
    pub fn new_at(
        id: String,
        now: i64,
        workspace_id: String,
        name: String,
        original_path: String,
        stored_path: String,
        file_type: String,
        size_bytes: i64,
    ) -> (made: Self)
        ensures
            made == Self::created(
                id,
                now,
                workspace_id,
                name,
                original_path,
                stored_path,
                file_type,
                size_bytes,
            ),
    {
        ImportedFile {
            id,
            workspace_id,
            parent_directory_id: None,
            name,
            original_path,
            stored_path,
            file_type,
            size_bytes,
            mime_type: None,
            checksum: None,
            is_archived: false,
            created_at: now,
            updated_at: now,
        }
    }
}

/// A directory that was imported into a workspace.
#[derive(Debug, Clone)]
pub struct ImportedDirectory {
    pub id: String,
    pub workspace_id: String,
    pub parent_id: Option<String>,
    pub name: String,
    pub original_path: String,
    pub stored_path: String,
    pub file_count: i32,
    pub total_size_bytes: i64,
    pub is_archived: bool,
    pub created_at: i64,
    pub updated_at: i64,
}

impl ImportedDirectory {
    /// The value that a new imported directory starts with.
    pub open spec fn created(
        id: String,
        now: i64,
        workspace_id: String,
        name: String,
        original_path: String,
        stored_path: String,
    ) -> ImportedDirectory {
        ImportedDirectory {
            id,
            workspace_id,
            parent_id: None,
            name,
            original_path,
            stored_path,
            file_count: 0,
            total_size_bytes: 0,
            is_archived: false,
            created_at: now,
            updated_at: now,
        }
    }

    /// A new imported directory with a fresh identifier, created at the current time.
    pub fn new(
        workspace_id: String,
        name: String,
        original_path: String,
        stored_path: String,
    ) -> (made: Self)
        ensures
            exists|id: String, now: i64| made == Self::created(
                id,
                now,
                workspace_id,
                name,
                original_path,
                stored_path,
            ),
            is_uuid_v4_text(made.id@),
    {
        let id = fresh_id();
        let now = now_millis();
        let made = Self::new_at(id, now, workspace_id, name, original_path, stored_path);
        assert(made == Self::created(id, now, workspace_id, name, original_path, stored_path));
        made
    }

    /// A new imported directory with the identifier `id`, created at time `now`.
    pub fn new_at(
        id: String,
        now: i64,
        workspace_id: String,
        name: String,
        original_path: String,
        stored_path: String,
    ) -> (made: Self)
        ensures
            made == Self::created(id, now, workspace_id, name, original_path, stored_path),
    {
        ImportedDirectory {
            id,
            workspace_id,
            parent_id: None,
            name,
            original_path,
            stored_path,
            file_count: 0,
            total_size_bytes: 0,
            is_archived: false,
            created_at: now,
            updated_at: now,
        }
    }
}

/// How much a workspace stores.
#[derive(Debug, Clone)]
pub struct StorageStats {
    pub files_count: i32,
    pub directories_count: i32,
    pub total_files_size_bytes: i64,
    pub total_directories_size_bytes: i64,
    pub total_size_bytes: i64,
}

} // verus!
