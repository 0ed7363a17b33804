//! What the commands of the user interface do to the entities of a
//! workspace: building a new entity from a request, and applying the changes
//! that a request asks for. Reading and writing the database around these is
//! the caller's business.

use vstd::prelude::*;
use vstd::string::StringExecFns;
use crate::app_state::chat::{Chat, Conversation};
use crate::app_state::file::{ImportedDirectory, ImportedFile, StorageStats};
use crate::app_state::link::WebLink;
use crate::app_state::note::{Note, NoteType};
use crate::app_state::repo::GitRepository;
use crate::app_state::terminal::Terminal;
use crate::app_state::workspace::Workspace;
use crate::dto::{
    CreateChatDto, CreateConversationDto, CreateDirectoryDto, CreateFileDto, CreateNoteDto,
    CreateRepositoryDto, CreateTerminalDto, CreateWebLinkDto, CreateWorkspaceDto, UpdateChatDto,
    UpdateConversationDto, UpdateConversationMessagesDto, UpdateDirectoryDto, UpdateFileDto,
    UpdateNoteDto, UpdateRepositoryDto, UpdateTerminalCwdDto, UpdateTerminalDto,
    UpdateTerminalHistoryDto, UpdateWebLinkDto, UpdateWorkspaceDto,
};
use crate::sequences::lemma_filter_take_step;
use crate::text::{joined, same_text};

verus! {

/// The value that a request asks for, or the old one where it asks for
/// none.
pub open spec fn or_old<T>(asked: Option<T>, old: T) -> T {
    match asked {
        Some(value) => value,
        None => old,
    }
}

/// The optional value that a request asks for, or the old one where it asks
/// for none. A request cannot take a value away.
pub open spec fn or_old_opt<T>(asked: Option<T>, old: Option<T>) -> Option<T> {
    match asked {
        Some(value) => Some(value),
        None => old,
    }
}

/// The workspace that `dto` asks for, with the identifier `id`, created at
/// time `now`.
pub fn create_workspace(dto: CreateWorkspaceDto, id: String, now: i64) -> (made: Workspace)
    ensures
        made == Workspace::created(id, now, dto.name, dto.description),
{
    Workspace::new_at(id, now, dto.name, dto.description)
}

/// The workspace after the changes that `dto` asks for, changed at time `now`: each value
/// that the request gives replaces the old one, and every other value
/// stays.
pub fn update_workspace(workspace: Workspace, dto: UpdateWorkspaceDto, now: i64) -> (updated: Workspace)
    ensures
        updated == (Workspace {
            name: or_old(dto.name, workspace.name),
            description: or_old_opt(dto.description, workspace.description),
            is_active: or_old(dto.is_active, workspace.is_active),
            updated_at: now,
            ..workspace
        }),
{
    let mut updated = workspace;
    match dto.name {
        Some(value) => updated.name = value,
        None => {},
    }
    match dto.description {
        Some(value) => updated.description = Some(value),
        None => {},
    }
    match dto.is_active {
        Some(value) => updated.is_active = value,
        None => {},
    }
    updated.updated_at = now;
    updated
}

/// The path of a note with the title `title` that names no file of its
/// own.
pub open spec fn default_note_path(title: Seq<char>) -> Seq<char> {
    "/notes/"@ + title + ".md"@
}

/// The type that a request names, or `Markdown` where the name is none of
/// the types.
pub open spec fn note_type_or_markdown(name: Seq<char>) -> NoteType {
    match NoteType::named(name) {
        Some(t) => t,
        None => NoteType::Markdown,
    }
}

/// The note that `dto` asks for, with the identifier `id`, created at time
/// `now`. A type that is none of the note types counts as `Markdown`; a
/// note without content is empty; a note without a file lies at
/// [`default_note_path`]. The caller counts the words of the content, and
/// files the tags of the request.
pub fn create_note(dto: CreateNoteDto, id: String, now: i64, word_count: i32) -> (made: Note)
    ensures
        made == Note::created(
            id,
            now,
            dto.workspace_id,
            dto.title,
            note_type_or_markdown(dto.note_type@),
            made.content,
            made.file_path,
            word_count,
            made.tags,
        ),
        made.content@ == match dto.content {
            Some(c) => c@,
            None => Seq::<char>::empty(),
        },
        made.file_path@ == match dto.file_path {
            Some(p) => p@,
            None => default_note_path(dto.title@),
        },
        made.tags@ == Seq::<String>::empty(),
{
    let note_type = match NoteType::parse(dto.note_type.as_str()) {
        Some(t) => t,
        None => NoteType::Markdown,
    };
    let file_path = match dto.file_path {
        Some(p) => p,
        None => {
            let mut path = joined("/notes/", dto.title.as_str());
            path.append(".md");
            path
        },
    };
    let content = match dto.content {
        Some(c) => c,
        None => String::new(),
    };
    Note::new_at(id, now, dto.workspace_id, dto.title, note_type, content, file_path, word_count)
}

/// The note after the changes that `dto` asks for, changed at time `now`:
/// each value that the request gives replaces the old one, and every other
/// value stays. A type that is none of the note types changes nothing.
pub fn update_note(note: Note, dto: UpdateNoteDto, now: i64) -> (updated: Note)
    ensures
        updated == (Note {
            title: or_old(dto.title, note.title),
            note_type: match dto.note_type {
                Some(name) => or_old(NoteType::named(name@), note.note_type),
                None => note.note_type,
            },
            content: or_old(dto.content, note.content),
            file_path: or_old(dto.file_path, note.file_path),
            tags: or_old(dto.tags, note.tags),
            updated_at: now,
            ..note
        }),
{
    let mut updated = note;
    match dto.title {
        Some(value) => updated.title = value,
        None => {},
    }
    match dto.note_type {
        Some(name) => match NoteType::parse(name.as_str()) {
            Some(value) => updated.note_type = value,
            None => {},
        },
        None => {},
    }
    match dto.content {
        Some(value) => updated.content = value,
        None => {},
    }
    match dto.file_path {
        Some(value) => updated.file_path = value,
        None => {},
    }
    match dto.tags {
        Some(value) => updated.tags = value,
        None => {},
    }
    updated.updated_at = now;
    updated
}

/// The type that a listing by type asks for, or the message that the name
/// is no note type.
pub fn get_notes_by_type(note_type: &str) -> (wanted: Result<NoteType, String>)
    ensures
        match wanted {
            Ok(t) => NoteType::named(note_type@) == Some(t),
            Err(e) => NoteType::named(note_type@).is_none() && e@ == "Invalid note type: "@
                + note_type@,
        },
{
    match NoteType::parse(note_type) {
        Some(t) => Ok(t),
        None => Err(joined("Invalid note type: ", note_type)),
    }
}

/// The texts of a list of tags.
pub open spec fn tag_texts(tags: Seq<String>) -> Seq<Seq<char>> {
    tags.map_values(|t: String| t@)
}

/// The test that a text is another one than `tag`.
pub open spec fn other_tag(tag: Seq<char>) -> spec_fn(Seq<char>) -> bool {
    |t: Seq<char>| t != tag
}

/// The note with the tag `tag`: a tag that the note has already is not
/// added again.
pub fn add_note_tag(note: Note, tag: &str) -> (updated: Note)
    ensures
        updated == (Note { tags: updated.tags, ..note }),
        tag_texts(updated.tags@) == if tag_texts(note.tags@).contains(tag@) {
            tag_texts(note.tags@)
        } else {
            tag_texts(note.tags@).push(tag@)
        },
{
    let mut updated = note;
    let mut i: usize = 0;
    while i < updated.tags.len()
        invariant
            i <= updated.tags.len(),
            updated == note,
            forall|j: int| 0 <= j < i ==> tag_texts(note.tags@)[j] != tag@,
        decreases updated.tags.len() - i,
    {
        if same_text(updated.tags[i].as_str(), tag) {
            assert(tag_texts(note.tags@)[i as int] == tag@);
            return updated;
        }
        i = i + 1;
    }
    updated.tags.push(tag.to_owned());
    assert(tag_texts(updated.tags@) =~= tag_texts(note.tags@).push(tag@));
    updated
}

/// The note without the tag `tag`, wherever it stood.
pub fn remove_note_tag(note: Note, tag: &str) -> (updated: Note)
    ensures
        updated == (Note { tags: updated.tags, ..note }),
        tag_texts(updated.tags@) == tag_texts(note.tags@).filter(other_tag(tag@)),
{
    let mut updated = note;
    let ghost before = tag_texts(note.tags@);
    let ghost keep = other_tag(tag@);
    let mut i: usize = 0;
    let ghost mut dropped: int = 0;
    proof {
        reveal(Seq::filter);
        assert(before.take(0).filter(keep) =~= tag_texts(updated.tags@).take(0));
        assert(tag_texts(updated.tags@).skip(0) =~= before.skip(0));
    }
    while i < updated.tags.len()
        invariant
            i <= updated.tags.len(),
            0 <= dropped,
            updated.tags.len() + dropped == before.len(),
            keep == other_tag(tag@),
            updated == (Note { tags: updated.tags, ..note }),
            tag_texts(updated.tags@).take(i as int) == before.take(i + dropped).filter(keep),
            tag_texts(updated.tags@).skip(i as int) == before.skip(i + dropped),
        decreases updated.tags.len() - i,
    {
        let ghost k: int = i + dropped;
        let ghost prev = tag_texts(updated.tags@);
        proof {
            lemma_filter_take_step(before, keep, k);
            assert(prev.skip(i as int)[0] == before.skip(k)[0]);
        }
        if same_text(updated.tags[i].as_str(), tag) {
            let _ = updated.tags.remove(i);
            proof {
                dropped = dropped + 1;
                assert(tag_texts(updated.tags@) =~= prev.remove(i as int));
                assert(tag_texts(updated.tags@).take(i as int) =~= prev.take(i as int));
                assert(tag_texts(updated.tags@).skip(i as int) =~= prev.skip(i as int).skip(1));
                assert(before.skip(k).skip(1) =~= before.skip(k + 1));
            }
        } else {
            i = i + 1;
            proof {
                assert(prev.take(i as int) =~= prev.take(i - 1).push(prev[i - 1]));
                assert(prev.skip(i as int) =~= prev.skip(i - 1).skip(1));
                assert(before.skip(k).skip(1) =~= before.skip(k + 1));
            }
        }
    }
    proof {
        assert(tag_texts(updated.tags@).take(i as int) =~= tag_texts(updated.tags@));
        assert(before.take(before.len() as int) =~= before);
    }
    updated
}

/// The note as a favourite where it was none, and as none where it was
/// one.
pub fn toggle_note_favorite(note: Note) -> (updated: Note)
    ensures
        updated == (Note { is_favorited: !note.is_favorited, ..note }),
{
    let mut updated = note;
    updated.is_favorited = !updated.is_favorited;
    updated
}

/// The file that `dto` asks for, with the identifier `id`, registered at
/// time `now`.
pub fn create_file(dto: CreateFileDto, id: String, now: i64) -> (made: ImportedFile)
    ensures
        made == (ImportedFile {
            mime_type: dto.mime_type,
            ..ImportedFile::created(
                id,
                now,
                dto.workspace_id,
                dto.name,
                dto.original_path,
                dto.stored_path,
                dto.file_type,
                dto.size_bytes,
            )
        }),
{
    let mut made = ImportedFile::new_at(
        id,
        now,
        dto.workspace_id,
        dto.name,
        dto.original_path,
        dto.stored_path,
        dto.file_type,
        dto.size_bytes,
    );
    made.mime_type = dto.mime_type;
    made
}

/// The file after the changes that `dto` asks for, changed at time `now`: each value
/// that the request gives replaces the old one, and every other value
/// stays.
pub fn update_file(file: ImportedFile, dto: UpdateFileDto, now: i64) -> (updated: ImportedFile)
    ensures
        updated == (ImportedFile {
            name: or_old(dto.name, file.name),
            file_type: or_old(dto.file_type, file.file_type),
            size_bytes: or_old(dto.size_bytes, file.size_bytes),
            mime_type: or_old_opt(dto.mime_type, file.mime_type),
            updated_at: now,
            ..file
        }),
{
    let mut updated = file;
    match dto.name {
        Some(value) => updated.name = value,
        None => {},
    }
    match dto.file_type {
        Some(value) => updated.file_type = value,
        None => {},
    }
    match dto.size_bytes {
        Some(value) => updated.size_bytes = value,
        None => {},
    }
    match dto.mime_type {
        Some(value) => updated.mime_type = Some(value),
        None => {},
    }
    updated.updated_at = now;
    updated
}

/// The directory that `dto` asks for, with the identifier `id`, registered
/// at time `now`.
pub fn create_directory(dto: CreateDirectoryDto, id: String, now: i64) -> (made: ImportedDirectory)
    ensures
        made == ImportedDirectory::created(
            id,
            now,
            dto.workspace_id,
            dto.name,
            dto.original_path,
            dto.stored_path,
        ),
{
    ImportedDirectory::new_at(id, now, dto.workspace_id, dto.name, dto.original_path, dto.stored_path)
}

/// The directory after the changes that `dto` asks for, changed at time `now`: each value
/// that the request gives replaces the old one, and every other value
/// stays.
pub fn update_directory(directory: ImportedDirectory, dto: UpdateDirectoryDto, now: i64) -> (updated: ImportedDirectory)
    ensures
        updated == (ImportedDirectory {
            name: or_old(dto.name, directory.name),
            file_count: or_old(dto.file_count, directory.file_count),
            total_size_bytes: or_old(dto.total_size_bytes, directory.total_size_bytes),
            updated_at: now,
            ..directory
        }),
{
    let mut updated = directory;
    match dto.name {
        Some(value) => updated.name = value,
        None => {},
    }
    match dto.file_count {
        Some(value) => updated.file_count = value,
        None => {},
    }
    match dto.total_size_bytes {
        Some(value) => updated.total_size_bytes = value,
        None => {},
    }
    updated.updated_at = now;
    updated
}

/// The repository that `dto` asks for, with the identifier `id`,
/// registered at time `now`. It has no local path yet, and its branch is
/// `main` where the request names none.
pub fn create_repository(dto: CreateRepositoryDto, id: String, now: i64) -> (made: GitRepository)
    ensures
        made == GitRepository::created(
            id,
            now,
            dto.workspace_id,
            dto.name,
            dto.url,
            made.local_path,
            made.branch,
        ),
        made.local_path@ == Seq::<char>::empty(),
        made.branch@ == match dto.branch {
            Some(b) => b@,
            None => "main"@,
        },
{
    let branch = match dto.branch {
        Some(b) => b,
        None => "main".to_owned(),
    };
    GitRepository::new_at(id, now, dto.workspace_id, dto.name, dto.url, String::new(), branch)
}

/// The repo after the changes that `dto` asks for: each value
/// that the request gives replaces the old one, and every other value
/// stays. The time of the last change is left alone.
pub fn update_repository(repo: GitRepository, dto: UpdateRepositoryDto) -> (updated: GitRepository)
    ensures
        updated == (GitRepository {
            name: or_old(dto.name, repo.name),
            remote_url: or_old(dto.url, repo.remote_url),
            branch: or_old(dto.branch, repo.branch),
            ..repo
        }),
{
    let mut updated = repo;
    match dto.name {
        Some(value) => updated.name = value,
        None => {},
    }
    match dto.url {
        Some(value) => updated.remote_url = value,
        None => {},
    }
    match dto.branch {
        Some(value) => updated.branch = value,
        None => {},
    }
    updated
}

/// The chat that `dto` asks for, with the identifier `id`, created at time
/// `now`.
pub fn create_chat(dto: CreateChatDto, id: String, now: i64) -> (made: Chat)
    ensures
        made == (Chat {
            description: dto.description,
            default_model: dto.default_model,
            default_prompt: dto.default_prompt,
            ..Chat::created(id, now, dto.workspace_id, dto.name)
        }),
{
    let mut made = Chat::new_at(id, now, dto.workspace_id, dto.name);
    made.description = dto.description;
    made.default_model = dto.default_model;
    made.default_prompt = dto.default_prompt;
    made
}

/// The chat after the changes that `dto` asks for, changed at time `now`: each value
/// that the request gives replaces the old one, and every other value
/// stays.
pub fn update_chat(chat: Chat, dto: UpdateChatDto, now: i64) -> (updated: Chat)
    ensures
        updated == (Chat {
            name: or_old(dto.name, chat.name),
            description: or_old_opt(dto.description, chat.description),
            default_model: or_old_opt(dto.default_model, chat.default_model),
            default_prompt: or_old_opt(dto.default_prompt, chat.default_prompt),
            is_active: or_old(dto.is_active, chat.is_active),
            is_archived: or_old(dto.is_archived, chat.is_archived),
            updated_at: now,
            ..chat
        }),
{
    let mut updated = chat;
    match dto.name {
        Some(value) => updated.name = value,
        None => {},
    }
    match dto.description {
        Some(value) => updated.description = Some(value),
        None => {},
    }
    match dto.default_model {
        Some(value) => updated.default_model = Some(value),
        None => {},
    }
    match dto.default_prompt {
        Some(value) => updated.default_prompt = Some(value),
        None => {},
    }
    match dto.is_active {
        Some(value) => updated.is_active = value,
        None => {},
    }
    match dto.is_archived {
        Some(value) => updated.is_archived = value,
        None => {},
    }
    updated.updated_at = now;
    updated
}

/// The conversation that `dto` asks for, with the identifier `id`, created
/// at time `now`. It has no messages yet.
pub fn create_conversation(dto: CreateConversationDto, id: String, now: i64) -> (made: Conversation)
    ensures
        made == (Conversation {
            chat_id: dto.chat_id,
            model: dto.model,
            system_prompt: dto.system_prompt,
            ..Conversation::created(id, now, dto.workspace_id, dto.title, made.messages)
        }),
        made.messages@ == "[]"@,
{
    let mut made = Conversation::new_at(id, now, dto.workspace_id, dto.title);
    made.chat_id = dto.chat_id;
    made.model = dto.model;
    made.system_prompt = dto.system_prompt;
    made
}

/// The conversation after the changes that `dto` asks for, changed at time `now`: each value
/// that the request gives replaces the old one, and every other value
/// stays.
pub fn update_conversation(conversation: Conversation, dto: UpdateConversationDto, now: i64) -> (updated: Conversation)
    ensures
        updated == (Conversation {
            title: or_old(dto.title, conversation.title),
            chat_id: or_old_opt(dto.chat_id, conversation.chat_id),
            model: or_old_opt(dto.model, conversation.model),
            system_prompt: or_old_opt(dto.system_prompt, conversation.system_prompt),
            is_favorited: or_old(dto.is_favorited, conversation.is_favorited),
            is_archived: or_old(dto.is_archived, conversation.is_archived),
            updated_at: now,
            ..conversation
        }),
{
    let mut updated = conversation;
    match dto.title {
        Some(value) => updated.title = value,
        None => {},
    }
    match dto.chat_id {
        Some(value) => updated.chat_id = Some(value),
        None => {},
    }
    match dto.model {
        Some(value) => updated.model = Some(value),
        None => {},
    }
    match dto.system_prompt {
        Some(value) => updated.system_prompt = Some(value),
        None => {},
    }
    match dto.is_favorited {
        Some(value) => updated.is_favorited = value,
        None => {},
    }
    match dto.is_archived {
        Some(value) => updated.is_archived = value,
        None => {},
    }
    updated.updated_at = now;
    updated
}

/// The conversation with the messages and counts of `dto`, active and
/// changed at time `now`.
pub fn update_conversation_messages(
    conversation: Conversation,
    dto: UpdateConversationMessagesDto,
    now: i64,
) -> (updated: Conversation)
    ensures
        updated == (Conversation {
            messages: dto.messages,
            message_count: dto.message_count,
            token_count: dto.token_count,
            last_active_at: Some(now),
            updated_at: now,
            ..conversation
        }),
{
    let mut updated = conversation;
    updated.messages = dto.messages;
    updated.message_count = dto.message_count;
    updated.token_count = dto.token_count;
    updated.last_active_at = Some(now);
    updated.updated_at = now;
    updated
}

/// The terminal that `dto` asks for, with the identifier `id`, created at
/// time `now`. It has no history yet.
pub fn create_terminal(dto: CreateTerminalDto, id: String, now: i64) -> (made: Terminal)
    ensures
        made == (Terminal {
            env: dto.env,
            ..Terminal::created(id, now, dto.workspace_id, dto.name, dto.shell, dto.cwd, made.history)
        }),
        made.history@ == "[]"@,
{
    let mut made = Terminal::new_at(id, now, dto.workspace_id, dto.name, dto.shell, dto.cwd);
    made.env = dto.env;
    made
}

/// The terminal after the changes that `dto` asks for, changed at time `now`: each value
/// that the request gives replaces the old one, and every other value
/// stays.
pub fn update_terminal(terminal: Terminal, dto: UpdateTerminalDto, now: i64) -> (updated: Terminal)
    ensures
        updated == (Terminal {
            name: or_old(dto.name, terminal.name),
            shell: or_old(dto.shell, terminal.shell),
            cwd: or_old(dto.cwd, terminal.cwd),
            env: or_old_opt(dto.env, terminal.env),
            is_active: or_old(dto.is_active, terminal.is_active),
            is_archived: or_old(dto.is_archived, terminal.is_archived),
            updated_at: now,
            ..terminal
        }),
{
    let mut updated = terminal;
    match dto.name {
        Some(value) => updated.name = value,
        None => {},
    }
    match dto.shell {
        Some(value) => updated.shell = value,
        None => {},
    }
    match dto.cwd {
        Some(value) => updated.cwd = value,
        None => {},
    }
    match dto.env {
        Some(value) => updated.env = Some(value),
        None => {},
    }
    match dto.is_active {
        Some(value) => updated.is_active = value,
        None => {},
    }
    match dto.is_archived {
        Some(value) => updated.is_archived = value,
        None => {},
    }
    updated.updated_at = now;
    updated
}

/// The terminal in the working directory of `dto`, changed at time `now`.
pub fn update_terminal_cwd(terminal: Terminal, dto: UpdateTerminalCwdDto, now: i64) -> (updated:
    Terminal)
    ensures
        updated == (Terminal { cwd: dto.cwd, updated_at: now, ..terminal }),
{
    let mut updated = terminal;
    updated.cwd = dto.cwd;
    updated.updated_at = now;
    updated
}

/// The terminal with the history and count of `dto`, after a command at
/// time `now`.
pub fn append_terminal_history(terminal: Terminal, dto: UpdateTerminalHistoryDto, now: i64) -> (updated:
    Terminal)
    ensures
        updated == (Terminal {
            history: dto.history,
            history_count: dto.history_count,
            last_command_at: Some(now),
            updated_at: now,
            ..terminal
        }),
{
    let mut updated = terminal;
    updated.history = dto.history;
    updated.history_count = dto.history_count;
    updated.last_command_at = Some(now);
    updated.updated_at = now;
    updated
}

/// The web link that `dto` asks for, with the identifier `id`, created at
/// time `now`. A request without tags gives a link without tags.
pub fn create_web_link(dto: CreateWebLinkDto, id: String, now: i64) -> (made: WebLink)
    ensures
        made == (WebLink {
            description: dto.description,
            favicon_url: dto.favicon_url,
            ..WebLink::created(id, now, dto.workspace_id, dto.title, dto.url, made.tags)
        }),
        match dto.tags {
            Some(tags) => made.tags == tags,
            None => made.tags@ == Seq::<String>::empty(),
        },
{
    let mut made = WebLink::new_at(id, now, dto.workspace_id, dto.title, dto.url);
    made.description = dto.description;
    made.favicon_url = dto.favicon_url;
    match dto.tags {
        Some(tags) => made.tags = tags,
        None => {},
    }
    made
}

/// The link after the changes that `dto` asks for, changed at time `now`: each value
/// that the request gives replaces the old one, and every other value
/// stays.
pub fn update_web_link(link: WebLink, dto: UpdateWebLinkDto, now: i64) -> (updated: WebLink)
    ensures
        updated == (WebLink {
            title: or_old(dto.title, link.title),
            url: or_old(dto.url, link.url),
            description: or_old_opt(dto.description, link.description),
            favicon_url: or_old_opt(dto.favicon_url, link.favicon_url),
            thumbnail_url: or_old_opt(dto.thumbnail_url, link.thumbnail_url),
            tags: or_old(dto.tags, link.tags),
            content: or_old_opt(dto.content, link.content),
            is_favorited: or_old(dto.is_favorited, link.is_favorited),
            is_archived: or_old(dto.is_archived, link.is_archived),
            updated_at: now,
            ..link
        }),
{
    let mut updated = link;
    match dto.title {
        Some(value) => updated.title = value,
        None => {},
    }
    match dto.url {
        Some(value) => updated.url = value,
        None => {},
    }
    match dto.description {
        Some(value) => updated.description = Some(value),
        None => {},
    }
    match dto.favicon_url {
        Some(value) => updated.favicon_url = Some(value),
        None => {},
    }
    match dto.thumbnail_url {
        Some(value) => updated.thumbnail_url = Some(value),
        None => {},
    }
    match dto.tags {
        Some(value) => updated.tags = value,
        None => {},
    }
    match dto.content {
        Some(value) => updated.content = Some(value),
        None => {},
    }
    match dto.is_favorited {
        Some(value) => updated.is_favorited = value,
        None => {},
    }
    match dto.is_archived {
        Some(value) => updated.is_archived = value,
        None => {},
    }
    updated.updated_at = now;
    updated
}

/// What a workspace stores, from the counts and sizes of its files and
/// directories. The total is the sum of both sizes, which must fit the
/// number that holds it.
pub fn storage_stats(
    files_count: i32,
    directories_count: i32,
    total_files_size_bytes: i64,
    total_directories_size_bytes: i64,
) -> (stats: StorageStats)
    requires
        i64::MIN <= total_files_size_bytes + total_directories_size_bytes <= i64::MAX,
    ensures
        stats == (StorageStats {
            files_count,
            directories_count,
            total_files_size_bytes,
            total_directories_size_bytes,
            total_size_bytes: (total_files_size_bytes + total_directories_size_bytes) as i64,
        }),
{
    StorageStats {
        files_count,
        directories_count,
        total_files_size_bytes,
        total_directories_size_bytes,
        total_size_bytes: total_files_size_bytes + total_directories_size_bytes,
    }
}

/// The web link after one more visit at time `now`. The count stops at
/// the largest number that it can hold.
pub fn increment_link_visit(link: WebLink, now: i64) -> (updated: WebLink)
    ensures
        updated == (WebLink {
            visit_count: if link.visit_count < i32::MAX {
                (link.visit_count + 1) as i32
            } else {
                i32::MAX
            },
            last_visited_at: Some(now),
            updated_at: now,
            ..link
        }),
{
    let mut updated = link;
    if updated.visit_count < i32::MAX {
        updated.visit_count = updated.visit_count + 1;
    }
    updated.last_visited_at = Some(now);
    updated.updated_at = now;
    updated
}

} // verus!
