//! Web links.

use vstd::prelude::*;
use crate::clock::now_millis;
use crate::ident::{fresh_id, is_uuid_v4_text};

verus! {

/// A web link of a workspace.
#[derive(Debug, Clone)]
pub struct WebLink {
    pub id: String,
    pub workspace_id: String,
    pub title: String,
    pub url: String,
    pub description: Option<String>,
    pub favicon_url: Option<String>,
    pub thumbnail_url: Option<String>,
    pub tags: Vec<String>,
    pub content: Option<String>,
    pub is_favorited: bool,
    pub is_archived: bool,
    pub visit_count: i32,
    pub last_visited_at: Option<i64>,
    pub created_at: i64,
    pub updated_at: i64,
}

impl WebLink {
    /// The value that a new web link starts with.
    pub open spec fn created(
        id: String,
        now: i64,
        workspace_id: String,
        title: String,
        url: String,
        tags: Vec<String>,
    ) -> WebLink {
        WebLink {
            id,
            workspace_id,
            title,
            url,
            description: None,
            favicon_url: None,
            thumbnail_url: None,
            tags,
            content: None,
            is_favorited: false,
            is_archived: false,
            visit_count: 0,
            last_visited_at: None,
            created_at: now,
            updated_at: now,
        }
    }

    /// A new web link with a fresh identifier, created at the current time.
    pub fn new(workspace_id: String, title: String, url: String) -> (made: Self)
        ensures
            exists|id: String, now: i64| made == Self::created(
                id,
                now,
                workspace_id,
                title,
                url,
                made.tags,
            ),
            is_uuid_v4_text(made.id@),
            made.tags@ == Seq::<String>::empty(),
    {
        let id = fresh_id();
        let now = now_millis();
        let made = Self::new_at(id, now, workspace_id, title, url);
        assert(made == Self::created(id, now, workspace_id, title, url, made.tags));
        made
    }

    /// A new web link with the identifier `id`, created at time `now`.
    pub fn new_at(
        id: String,
        now: i64,
        workspace_id: String,
        title: String,
        url: String,
    ) -> (made: Self)
        ensures
            made == Self::created(id, now, workspace_id, title, url, made.tags),
            made.tags@ == Seq::<String>::empty(),
    {
        WebLink {
            id,
            workspace_id,
            title,
            url,
            description: None,
            favicon_url: None,
            thumbnail_url: None,
            tags: Vec::new(),
            content: None,
            is_favorited: false,
            is_archived: false,
            visit_count: 0,
            last_visited_at: None,
            created_at: now,
            updated_at: now,
        }
    }
}

} // verus!
