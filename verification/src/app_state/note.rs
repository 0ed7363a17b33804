//! Notes and their types.

use vstd::prelude::*;
use crate::clock::now_millis;
use crate::ident::{fresh_id, is_uuid_v4_text};
use crate::text::same_text;

verus! {

/// The kind of content that a note holds.
#[derive(Debug, Clone, Copy, PartialEq, Eq, Structural)]
pub enum NoteType {
    RichText,
    Markdown,
    Code,
    Table,
    MindMap,
    Flowchart,
}

impl NoteType {
    /// The name under which a note type is stored.
    pub open spec fn name(self) -> Seq<char> {
        match self {
            NoteType::RichText => "richtext"@,
            NoteType::Markdown => "markdown"@,
            NoteType::Code => "code"@,
            NoteType::Table => "table"@,
            NoteType::MindMap => "mindmap"@,
            NoteType::Flowchart => "flowchart"@,
        }
    }

    /// What a stored name stands for, if it is one of the names.
    pub open spec fn named(s: Seq<char>) -> Option<NoteType> {
        if s == "richtext"@ {
            Some(NoteType::RichText)
        } else if s == "markdown"@ {
            Some(NoteType::Markdown)
        } else if s == "code"@ {
            Some(NoteType::Code)
        } else if s == "table"@ {
            Some(NoteType::Table)
        } else if s == "mindmap"@ {
            Some(NoteType::MindMap)
        } else if s == "flowchart"@ {
            Some(NoteType::Flowchart)
        } else {
            None
        }
    }

    /// The name of the value.
    pub fn as_str(&self) -> (s: &'static str)
        ensures
            s@ == self.name(),
    {
        match self {
            NoteType::RichText => "richtext",
            NoteType::Markdown => "markdown",
            NoteType::Code => "code",
            NoteType::Table => "table",
            NoteType::MindMap => "mindmap",
            NoteType::Flowchart => "flowchart",
        }
    }

    /// The value that `s` names, if it names one.
    pub fn parse(s: &str) -> (parsed: Option<Self>)
        ensures
            parsed == Self::named(s@),
    {
        if same_text(s, "richtext") {
            Some(NoteType::RichText)
        } else if same_text(s, "markdown") {
            Some(NoteType::Markdown)
        } else if same_text(s, "code") {
            Some(NoteType::Code)
        } else if same_text(s, "table") {
            Some(NoteType::Table)
        } else if same_text(s, "mindmap") {
            Some(NoteType::MindMap)
        } else if same_text(s, "flowchart") {
            Some(NoteType::Flowchart)
        } else {
            None
        }
    }

    /// The names are distinct: parsing a name gives back what it names.
    pub proof fn lemma_parse_inverts_name(value: NoteType)
        ensures
            Self::named(value.name()) == Some(value),
    {
        reveal_strlit("richtext");
        reveal_strlit("markdown");
        reveal_strlit("code");
        reveal_strlit("table");
        reveal_strlit("mindmap");
        reveal_strlit("flowchart");
        assert("richtext"@.len() == 8);
        assert("richtext"@[0] == 'r' && "richtext"@[1] == 'i' && "richtext"@[2] == 'c');
        assert("markdown"@.len() == 8);
        assert("markdown"@[0] == 'm' && "markdown"@[1] == 'a' && "markdown"@[2] == 'r');
        assert("code"@.len() == 4);
        assert("code"@[0] == 'c' && "code"@[1] == 'o' && "code"@[2] == 'd');
        assert("table"@.len() == 5);
        assert("table"@[0] == 't' && "table"@[1] == 'a' && "table"@[2] == 'b');
        assert("mindmap"@.len() == 7);
        assert("mindmap"@[0] == 'm' && "mindmap"@[1] == 'i' && "mindmap"@[2] == 'n');
        assert("flowchart"@.len() == 9);
        assert("flowchart"@[0] == 'f' && "flowchart"@[1] == 'l' && "flowchart"@[2] == 'o');
    }
}

/// A note of a workspace. The caller counts the words of the content.
#[derive(Debug, Clone)]
pub struct Note {
    pub id: String,
    pub workspace_id: String,
    pub parent_id: Option<String>,
    pub title: String,
    pub note_type: NoteType,
    pub content: String,
    pub summary: Option<String>,
    pub file_path: String,
    pub tags: Vec<String>,
    pub word_count: i32,
    pub sort_order: i32,
    pub is_favorited: bool,
    pub is_pinned: bool,
    pub is_archived: bool,
    pub last_viewed_at: Option<i64>,
    pub created_at: i64,
    pub updated_at: i64,
}

impl Note {
    /// The value that a new note starts with.
    pub open spec fn created(
        id: String,
        now: i64,
        workspace_id: String,
        title: String,
        note_type: NoteType,
        content: String,
        file_path: String,
        word_count: i32,
        tags: Vec<String>,
    ) -> Note {
        Note {
            id,
            workspace_id,
            parent_id: None,
            title,
            note_type,
            content,
            summary: None,
            file_path,
            tags,
            word_count,
            sort_order: 0,
            is_favorited: false,
            is_pinned: false,
            is_archived: false,
            last_viewed_at: None,
            created_at: now,
            updated_at: now,
        }
    }

    /// A new note with a fresh identifier, created at the current time.
    pub fn new(
        workspace_id: String,
        title: String,
        note_type: NoteType,
        content: String,
        file_path: String,
        word_count: i32,
    ) -> (made: Self)
        ensures
            exists|id: String, now: i64| made == Self::created(
                id,
                now,
                workspace_id,
                title,
                note_type,
                content,
                file_path,
                word_count,
                made.tags,
            ),
            is_uuid_v4_text(made.id@),
            made.tags@ == Seq::<String>::empty(),
    {
        let id = fresh_id();
        let now = now_millis();
        let made = Self::new_at(
            id,
            now,
            workspace_id,
            title,
            note_type,
            content,
            file_path,
            word_count,
        );
        assert(made == Self::created(
            id,
            now,
            workspace_id,
            title,
            note_type,
            content,
            file_path,
            word_count,
            made.tags,
        ));
        made
    }

    /// A new note with the identifier `id`, created at time `now`.
    pub fn new_at(
        id: String,
        now: i64,
        workspace_id: String,
        title: String,
        note_type: NoteType,
        content: String,
        file_path: String,
        word_count: i32,
    ) -> (made: Self)
        ensures
            made == Self::created(
                id,
                now,
                workspace_id,
                title,
                note_type,
                content,
                file_path,
                word_count,
                made.tags,
            ),
            made.tags@ == Seq::<String>::empty(),
    {
        Note {
            id,
            workspace_id,
            parent_id: None,
            title,
            note_type,
            content,
            summary: None,
            file_path,
            tags: Vec::new(),
            word_count,
            sort_order: 0,
            is_favorited: false,
            is_pinned: false,
            is_archived: false,
            last_viewed_at: None,
            created_at: now,
            updated_at: now,
        }
    }
}

} // verus!
