//! The values that callers hand to the command surface.

use vstd::prelude::*;

verus! {

/// What a caller gives to create a workspace.
#[derive(Debug, Clone)]
pub struct CreateWorkspaceDto {
    pub name: String,
    pub description: Option<String>,
}

/// The fields of a workspace that a caller wants changed.
#[derive(Debug, Clone)]
pub struct UpdateWorkspaceDto {
    pub name: Option<String>,
    pub description: Option<String>,
    pub is_active: Option<bool>,
}

/// What a caller gives to create a note.
#[derive(Debug, Clone)]
pub struct CreateNoteDto {
    pub workspace_id: String,
    pub title: String,
    pub note_type: String,
    pub content: Option<String>,
    pub file_path: Option<String>,
    pub tags: Option<Vec<String>>,
}

/// The fields of a note that a caller wants changed.
#[derive(Debug, Clone)]
pub struct UpdateNoteDto {
    pub title: Option<String>,
    pub note_type: Option<String>,
    pub content: Option<String>,
    pub file_path: Option<String>,
    pub tags: Option<Vec<String>>,
}

/// What a caller gives to register an imported file.
#[derive(Debug, Clone)]
pub struct CreateFileDto {
    pub workspace_id: String,
    pub name: String,
    pub original_path: String,
    pub stored_path: String,
    pub file_type: String,
    pub size_bytes: i64,
    pub mime_type: Option<String>,
}

/// The fields of an imported file that a caller wants changed.
#[derive(Debug, Clone)]
pub struct UpdateFileDto {
    pub name: Option<String>,
    pub file_type: Option<String>,
    pub size_bytes: Option<i64>,
    pub mime_type: Option<String>,
}

/// What a caller gives to register a repository.
#[derive(Debug, Clone)]
pub struct CreateRepositoryDto {
    pub workspace_id: String,
    pub name: String,
    pub url: String,
    pub branch: Option<String>,
}

/// The fields of a repository that a caller wants changed.
#[derive(Debug, Clone)]
pub struct UpdateRepositoryDto {
    pub name: Option<String>,
    pub url: Option<String>,
    pub branch: Option<String>,
}

/// What a caller gives to start cloning a repository.
#[derive(Debug, Clone)]
pub struct CloneRepositoryTaskDto {
    pub workspace_id: String,
    pub url: String,
    pub branch: Option<String>,
}

/// What a caller gives to start indexing a repository.
#[derive(Debug, Clone)]
pub struct IndexRepositoryTaskDto {
    pub repository_id: String,
}

/// What a caller gives to start importing files.
#[derive(Debug, Clone)]
pub struct ImportFilesTaskDto {
    pub workspace_id: String,
    pub paths: Vec<String>,
}

/// What a caller gives to create a chat.
#[derive(Debug, Clone)]
pub struct CreateChatDto {
    pub workspace_id: String,
    pub name: String,
    pub description: Option<String>,
    pub default_model: Option<String>,
    pub default_prompt: Option<String>,
}

/// The fields of a chat that a caller wants changed.
#[derive(Debug, Clone)]
pub struct UpdateChatDto {
    pub name: Option<String>,
    pub description: Option<String>,
    pub default_model: Option<String>,
    pub default_prompt: Option<String>,
    pub is_active: Option<bool>,
    pub is_archived: Option<bool>,
}

/// What a caller gives to create a conversation.
#[derive(Debug, Clone)]
pub struct CreateConversationDto {
    pub workspace_id: String,
    pub title: String,
    pub chat_id: Option<String>,
    pub model: Option<String>,
    pub system_prompt: Option<String>,
}

/// The fields of a conversation that a caller wants changed.
#[derive(Debug, Clone)]
pub struct UpdateConversationDto {
    pub title: Option<String>,
    pub chat_id: Option<String>,
    pub model: Option<String>,
    pub system_prompt: Option<String>,
    pub is_favorited: Option<bool>,
    pub is_archived: Option<bool>,
}

/// The messages of a conversation with their counts.
#[derive(Debug, Clone)]
pub struct UpdateConversationMessagesDto {
    pub messages: String,
    pub message_count: i32,
    pub token_count: i32,
}

/// What a caller gives to create a terminal.
#[derive(Debug, Clone)]
pub struct CreateTerminalDto {
    pub workspace_id: String,
    pub name: String,
    pub shell: String,
    pub cwd: String,
    pub env: Option<String>,
}

/// The fields of a terminal that a caller wants changed.
#[derive(Debug, Clone)]
pub struct UpdateTerminalDto {
    pub name: Option<String>,
    pub shell: Option<String>,
    pub cwd: Option<String>,
    pub env: Option<String>,
    pub is_active: Option<bool>,
    pub is_archived: Option<bool>,
}

/// The new working directory of a terminal.
#[derive(Debug, Clone)]
pub struct UpdateTerminalCwdDto {
    pub cwd: String,
}

/// The command history of a terminal with its count.
#[derive(Debug, Clone)]
pub struct UpdateTerminalHistoryDto {
    pub history: String,
    pub history_count: i32,
}

/// What a caller gives to create a web view.
#[derive(Debug, Clone)]
pub struct CreateWebviewDto {
    pub workspace_id: String,
    pub title: String,
    pub url: String,
}

/// The page that a web view moved to.
#[derive(Debug, Clone)]
pub struct UpdateWebviewUrlDto {
    pub url: String,
    pub title: String,
}

/// The scroll position of a web view.
#[derive(Debug, Clone)]
pub struct UpdateWebviewScrollDto {
    pub scroll_x: i32,
    pub scroll_y: i32,
}

/// What a caller gives to create a web link.
#[derive(Debug, Clone)]
pub struct CreateWebLinkDto {
    pub workspace_id: String,
    pub title: String,
    pub url: String,
    pub description: Option<String>,
    pub favicon_url: Option<String>,
    pub tags: Option<Vec<String>>,
}

/// The fields of a web link that a caller wants changed.
#[derive(Debug, Clone)]
pub struct UpdateWebLinkDto {
    pub title: Option<String>,
    pub url: Option<String>,
    pub description: Option<String>,
    pub favicon_url: Option<String>,
    pub thumbnail_url: Option<String>,
    pub tags: Option<Vec<String>>,
    pub content: Option<String>,
    pub is_favorited: Option<bool>,
    pub is_archived: Option<bool>,
}

/// What a caller gives to register an imported directory.
#[derive(Debug, Clone)]
pub struct CreateDirectoryDto {
    pub workspace_id: String,
    pub name: String,
    pub original_path: String,
    pub stored_path: String,
}

/// The fields of an imported directory that a caller wants changed.
#[derive(Debug, Clone)]
pub struct UpdateDirectoryDto {
    pub name: Option<String>,
    pub file_count: Option<i32>,
    pub total_size_bytes: Option<i64>,
}

} // verus!
