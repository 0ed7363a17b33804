//! Chats and conversations.

use vstd::prelude::*;
use crate::clock::now_millis;
use crate::ident::{fresh_id, is_uuid_v4_text};

verus! {

/// A chat of a workspace.
#[derive(Debug, Clone)]
pub struct Chat {
    pub id: String,
    pub workspace_id: String,
    pub name: String,
    pub description: Option<String>,
    pub default_model: Option<String>,
    pub default_prompt: Option<String>,
    pub conversation_count: i32,
    pub is_active: bool,
    pub is_archived: bool,
    pub last_active_at: Option<i64>,
    pub created_at: i64,
    pub updated_at: i64,
}

impl Chat {
    /// The value that a new chat starts with.
    pub open spec fn created(id: String, now: i64, workspace_id: String, name: String) -> Chat {
        Chat {
            id,
            workspace_id,
            name,
            description: None,
            default_model: None,
            default_prompt: None,
            conversation_count: 0,
            is_active: false,
            is_archived: false,
            last_active_at: None,
            created_at: now,
            updated_at: now,
        }
    }

    /// A new chat with a fresh identifier, created at the current time.
    pub fn new(workspace_id: String, name: String) -> (made: Self)
        ensures
            exists|id: String, now: i64| made == Self::created(id, now, workspace_id, name),
            is_uuid_v4_text(made.id@),
    {
        let id = fresh_id();
        let now = now_millis();
        let made = Self::new_at(id, now, workspace_id, name);
        assert(made == Self::created(id, now, workspace_id, name));
        made
    }

    /// A new chat with the identifier `id`, created at time `now`.
    pub fn new_at(id: String, now: i64, workspace_id: String, name: String) -> (made: Self)
        ensures
            made == Self::created(id, now, workspace_id, name),
    {
        Chat {
            id,
            workspace_id,
            name,
            description: None,
            default_model: None,
            default_prompt: None,
            conversation_count: 0,
            is_active: false,
            is_archived: false,
            last_active_at: None,
            created_at: now,
            updated_at: now,
        }
    }
}

/// A conversation of a workspace, with its messages as JSON text.
#[derive(Debug, Clone)]
pub struct Conversation {
    pub id: String,
    pub workspace_id: String,
    pub chat_id: Option<String>,
    pub title: String,
    pub model: Option<String>,
    pub system_prompt: Option<String>,
    pub messages: String,
    pub message_count: i32,
    pub token_count: i32,
    pub is_favorited: bool,
    pub is_archived: bool,
    pub last_active_at: Option<i64>,
    pub created_at: i64,
    pub updated_at: i64,
}

impl Conversation {
    /// The value that a new conversation starts with.
    pub open spec fn created(
        id: String,
        now: i64,
        workspace_id: String,
        title: String,
        messages: String,
    ) -> Conversation {
        Conversation {
            id,
            workspace_id,
            chat_id: None,
            title,
            model: None,
            system_prompt: None,
            messages,
            message_count: 0,
            token_count: 0,
            is_favorited: false,
            is_archived: false,
            last_active_at: None,
            created_at: now,
            updated_at: now,
        }
    }

    /// A new conversation with a fresh identifier, created at the current time.
    pub fn new(workspace_id: String, title: String) -> (made: Self)
        ensures
            exists|id: String, now: i64| made == Self::created(
                id,
                now,
                workspace_id,
                title,
                made.messages,
            ),
            is_uuid_v4_text(made.id@),
            made.messages@ == "[]"@,
    {
        let id = fresh_id();
        let now = now_millis();
        let made = Self::new_at(id, now, workspace_id, title);
        assert(made == Self::created(id, now, workspace_id, title, made.messages));
        made
    }

    /// A new conversation with the identifier `id`, created at time `now`.
    pub fn new_at(id: String, now: i64, workspace_id: String, title: String) -> (made: Self)
        ensures
            made == Self::created(id, now, workspace_id, title, made.messages),
            made.messages@ == "[]"@,
    {
        Conversation {
            id,
            workspace_id,
            chat_id: None,
            title,
            model: None,
            system_prompt: None,
            messages: "[]".to_owned(),
            message_count: 0,
            token_count: 0,
            is_favorited: false,
            is_archived: false,
            last_active_at: None,
            created_at: now,
            updated_at: now,
        }
    }
}

} // verus!
