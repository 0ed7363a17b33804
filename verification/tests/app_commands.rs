use open_context::app_commands::{
    add_note_tag, remove_note_tag, toggle_note_favorite,
    append_terminal_history, create_chat, create_conversation, create_directory, create_file,
    create_note, create_repository, create_terminal, create_web_link, create_workspace,
    get_notes_by_type, increment_link_visit, storage_stats, update_chat, update_conversation,
    update_conversation_messages, update_directory, update_file, update_note, update_repository,
    update_terminal, update_terminal_cwd, update_web_link, update_workspace,
};
use open_context::app_state::note::NoteType;
use open_context::dto::{
    CreateChatDto, CreateConversationDto, CreateDirectoryDto, CreateFileDto, CreateNoteDto,
    CreateRepositoryDto, CreateTerminalDto, CreateWebLinkDto, CreateWorkspaceDto, UpdateChatDto,
    UpdateConversationDto, UpdateConversationMessagesDto, UpdateDirectoryDto, UpdateFileDto,
    UpdateNoteDto, UpdateRepositoryDto, UpdateTerminalCwdDto, UpdateTerminalDto,
    UpdateTerminalHistoryDto, UpdateWebLinkDto, UpdateWorkspaceDto,
};

fn s(text: &str) -> String {
    text.to_string()
}

#[test]
fn workspaces_are_created_and_changed() {
    let made = create_workspace(
        CreateWorkspaceDto { name: s("First Name"), description: None },
        s("w"),
        1,
    );
    assert_eq!((made.id.as_str(), made.name.as_str(), made.created_at), ("w", "First Name", 1));
    let updated = update_workspace(
        made,
        UpdateWorkspaceDto {
            name: Some(s("Updated Name")),
            description: Some(s("New description")),
            is_active: None,
        },
        2,
    );
    assert_eq!(updated.name, "Updated Name");
    assert_eq!(updated.description, Some(s("New description")));
    assert!(!updated.is_active);
    assert_eq!((updated.created_at, updated.updated_at), (1, 2));
    let same = update_workspace(
        updated,
        UpdateWorkspaceDto { name: None, description: None, is_active: Some(true) },
        3,
    );
    assert_eq!(same.name, "Updated Name");
    assert_eq!(same.description, Some(s("New description")));
    assert!(same.is_active);
    assert_eq!(same.updated_at, 3);
}

#[test]
fn notes_are_created_and_changed() {
    let made = create_note(
        CreateNoteDto {
            workspace_id: s("w"),
            title: s("Plan"),
            note_type: s("sketch"),
            content: None,
            file_path: None,
            tags: Some(vec![s("important")]),
        },
        s("n"),
        1,
        0,
    );
    assert_eq!(made.note_type, NoteType::Markdown);
    assert_eq!(made.content, "");
    assert_eq!(made.file_path, "/notes/Plan.md");
    assert!(made.tags.is_empty());
    let code = create_note(
        CreateNoteDto {
            workspace_id: s("w"),
            title: s("Code"),
            note_type: s("code"),
            content: Some(s("fn main() {}")),
            file_path: Some(s("/tmp/test.rs")),
            tags: None,
        },
        s("c"),
        1,
        3,
    );
    assert_eq!(code.note_type, NoteType::Code);
    assert_eq!(code.content, "fn main() {}");
    assert_eq!(code.file_path, "/tmp/test.rs");
    assert_eq!(code.word_count, 3);

    let updated = update_note(
        made,
        UpdateNoteDto {
            title: Some(s("Updated Title")),
            note_type: Some(s("nonsense")),
            content: Some(s("Updated content")),
            file_path: None,
            tags: Some(vec![s("work")]),
        },
        5,
    );
    assert_eq!(updated.title, "Updated Title");
    assert_eq!(updated.note_type, NoteType::Markdown);
    assert_eq!(updated.content, "Updated content");
    assert_eq!(updated.file_path, "/notes/Plan.md");
    assert_eq!(updated.tags, vec![s("work")]);
    assert_eq!(updated.updated_at, 5);
    let typed = update_note(
        updated,
        UpdateNoteDto {
            title: None,
            note_type: Some(s("table")),
            content: None,
            file_path: Some(s("/x")),
            tags: None,
        },
        6,
    );
    assert_eq!(typed.note_type, NoteType::Table);
    assert_eq!(typed.title, "Updated Title");
    assert_eq!(typed.file_path, "/x");
    assert_eq!(typed.tags, vec![s("work")]);

    assert_eq!(get_notes_by_type("mindmap"), Ok(NoteType::MindMap));
    assert_eq!(get_notes_by_type("poem"), Err(s("Invalid note type: poem")));
}

#[test]
fn files_and_directories_are_created_and_changed() {
    let file = create_file(
        CreateFileDto {
            workspace_id: s("w"),
            name: s("test.pdf"),
            original_path: s("/original/test.pdf"),
            stored_path: s("/stored/test.pdf"),
            file_type: s("pdf"),
            size_bytes: 1024000,
            mime_type: Some(s("application/pdf")),
        },
        s("f"),
        1,
    );
    assert_eq!(file.mime_type, Some(s("application/pdf")));
    assert_eq!(file.size_bytes, 1024000);
    assert_eq!(file.checksum, None);
    let file = update_file(
        file,
        UpdateFileDto { name: None, file_type: Some(s("doc")), size_bytes: Some(5), mime_type: None },
        2,
    );
    assert_eq!(file.name, "test.pdf");
    assert_eq!(file.file_type, "doc");
    assert_eq!(file.size_bytes, 5);
    assert_eq!(file.mime_type, Some(s("application/pdf")));
    assert_eq!(file.updated_at, 2);

    let dir = create_directory(
        CreateDirectoryDto {
            workspace_id: s("w"),
            name: s("my-folder"),
            original_path: s("/original/my-folder"),
            stored_path: s("/stored/my-folder"),
        },
        s("d"),
        1,
    );
    let dir = update_directory(
        dir,
        UpdateDirectoryDto { name: None, file_count: Some(10), total_size_bytes: Some(5000000) },
        2,
    );
    assert_eq!(dir.name, "my-folder");
    assert_eq!((dir.file_count, dir.total_size_bytes, dir.updated_at), (10, 5000000, 2));
}

#[test]
fn repositories_are_created_and_changed() {
    let repo = create_repository(
        CreateRepositoryDto {
            workspace_id: s("w"),
            name: s("my-repo"),
            url: s("https://github.com/user/repo.git"),
            branch: None,
        },
        s("r"),
        1,
    );
    assert_eq!(repo.branch, "main");
    assert_eq!(repo.default_branch, Some(s("main")));
    assert_eq!(repo.local_path, "");
    let named = create_repository(
        CreateRepositoryDto {
            workspace_id: s("w"),
            name: s("n"),
            url: s("u"),
            branch: Some(s("dev")),
        },
        s("r2"),
        1,
    );
    assert_eq!(named.branch, "dev");
    let repo = update_repository(
        repo,
        UpdateRepositoryDto { name: Some(s("renamed")), url: None, branch: Some(s("next")) },
    );
    assert_eq!(repo.name, "renamed");
    assert_eq!(repo.remote_url, "https://github.com/user/repo.git");
    assert_eq!(repo.branch, "next");
    assert_eq!(repo.default_branch, Some(s("main")));
    assert_eq!(repo.updated_at, 1);
}

#[test]
fn chats_and_conversations_are_created_and_changed() {
    let chat = create_chat(
        CreateChatDto {
            workspace_id: s("w"),
            name: s("Chat"),
            description: Some(s("d")),
            default_model: None,
            default_prompt: Some(s("p")),
        },
        s("c"),
        1,
    );
    assert_eq!(chat.description, Some(s("d")));
    assert_eq!(chat.default_model, None);
    let chat = update_chat(
        chat,
        UpdateChatDto {
            name: None,
            description: None,
            default_model: Some(s("m")),
            default_prompt: None,
            is_active: Some(true),
            is_archived: None,
        },
        2,
    );
    assert_eq!(chat.name, "Chat");
    assert_eq!(chat.description, Some(s("d")));
    assert_eq!(chat.default_model, Some(s("m")));
    assert_eq!(chat.default_prompt, Some(s("p")));
    assert!(chat.is_active && !chat.is_archived);
    assert_eq!(chat.updated_at, 2);

    let conversation = create_conversation(
        CreateConversationDto {
            workspace_id: s("w"),
            title: s("Talk"),
            chat_id: Some(s("c")),
            model: None,
            system_prompt: None,
        },
        s("v"),
        1,
    );
    assert_eq!(conversation.chat_id, Some(s("c")));
    assert_eq!(conversation.messages, "[]");
    let conversation = update_conversation(
        conversation,
        UpdateConversationDto {
            title: Some(s("New")),
            chat_id: None,
            model: Some(s("m")),
            system_prompt: None,
            is_favorited: Some(true),
            is_archived: None,
        },
        2,
    );
    assert_eq!(conversation.title, "New");
    assert_eq!(conversation.chat_id, Some(s("c")));
    assert_eq!(conversation.model, Some(s("m")));
    assert!(conversation.is_favorited);
    let conversation = update_conversation_messages(
        conversation,
        UpdateConversationMessagesDto { messages: s("[1]"), message_count: 1, token_count: 9 },
        3,
    );
    assert_eq!(conversation.messages, "[1]");
    assert_eq!((conversation.message_count, conversation.token_count), (1, 9));
    assert_eq!(conversation.last_active_at, Some(3));
    assert_eq!(conversation.updated_at, 3);
}

#[test]
fn terminals_and_links_are_created_and_changed() {
    let terminal = create_terminal(
        CreateTerminalDto {
            workspace_id: s("w"),
            name: s("Term"),
            shell: s("/bin/sh"),
            cwd: s("/"),
            env: Some(s("{}")),
        },
        s("t"),
        1,
    );
    assert_eq!(terminal.env, Some(s("{}")));
    assert_eq!(terminal.history, "[]");
    let terminal = update_terminal(
        terminal,
        UpdateTerminalDto {
            name: None,
            shell: Some(s("/bin/zsh")),
            cwd: None,
            env: None,
            is_active: None,
            is_archived: Some(true),
        },
        2,
    );
    assert_eq!(terminal.shell, "/bin/zsh");
    assert_eq!(terminal.cwd, "/");
    assert_eq!(terminal.env, Some(s("{}")));
    assert!(terminal.is_archived);
    let terminal = update_terminal_cwd(terminal, UpdateTerminalCwdDto { cwd: s("/home") }, 3);
    assert_eq!((terminal.cwd.as_str(), terminal.updated_at), ("/home", 3));
    let terminal = append_terminal_history(
        terminal,
        UpdateTerminalHistoryDto { history: s("[\"ls\"]"), history_count: 1 },
        4,
    );
    assert_eq!(terminal.history, "[\"ls\"]");
    assert_eq!(terminal.history_count, 1);
    assert_eq!(terminal.last_command_at, Some(4));
    assert_eq!(terminal.updated_at, 4);

    let link = create_web_link(
        CreateWebLinkDto {
            workspace_id: s("w"),
            title: s("Rust Programming"),
            url: s("https://rust-lang.org"),
            description: None,
            favicon_url: Some(s("f")),
            tags: Some(vec![s("rust")]),
        },
        s("l"),
        1,
    );
    assert_eq!(link.tags, vec![s("rust")]);
    assert_eq!(link.favicon_url, Some(s("f")));
    let bare = create_web_link(
        CreateWebLinkDto {
            workspace_id: s("w"),
            title: s("t"),
            url: s("u"),
            description: None,
            favicon_url: None,
            tags: None,
        },
        s("l2"),
        1,
    );
    assert!(bare.tags.is_empty());
    let link = update_web_link(
        link,
        UpdateWebLinkDto {
            title: None,
            url: Some(s("https://www.rust-lang.org")),
            description: Some(s("d")),
            favicon_url: None,
            thumbnail_url: Some(s("t")),
            tags: None,
            content: Some(s("c")),
            is_favorited: Some(true),
            is_archived: None,
        },
        2,
    );
    assert_eq!(link.title, "Rust Programming");
    assert_eq!(link.url, "https://www.rust-lang.org");
    assert_eq!(link.description, Some(s("d")));
    assert_eq!(link.favicon_url, Some(s("f")));
    assert_eq!(link.thumbnail_url, Some(s("t")));
    assert_eq!(link.tags, vec![s("rust")]);
    assert_eq!(link.content, Some(s("c")));
    assert!(link.is_favorited && !link.is_archived);
    let link = increment_link_visit(link, 3);
    assert_eq!(link.visit_count, 1);
    assert_eq!(link.last_visited_at, Some(3));
    assert_eq!(link.updated_at, 3);
    let mut full = increment_link_visit(bare, 4);
    full.visit_count = i32::MAX;
    assert_eq!(increment_link_visit(full, 5).visit_count, i32::MAX);
}

#[test]
fn storage_is_summed() {
    let stats = storage_stats(1, 2, 1000, 2000);
    assert_eq!(stats.files_count, 1);
    assert_eq!(stats.directories_count, 2);
    assert_eq!(stats.total_files_size_bytes, 1000);
    assert_eq!(stats.total_directories_size_bytes, 2000);
    assert_eq!(stats.total_size_bytes, 3000);
    assert_eq!(storage_stats(0, 0, i64::MAX, 0).total_size_bytes, i64::MAX);
    assert_eq!(storage_stats(0, 0, i64::MAX, i64::MIN).total_size_bytes, -1);
}

#[test]
fn note_tags_and_favourites() {
    let note = create_note(
        CreateNoteDto {
            workspace_id: s("w"),
            title: s("Tagged Note"),
            note_type: s("markdown"),
            content: Some(s("Content")),
            file_path: Some(s("/tmp/note.md")),
            tags: None,
        },
        s("n"),
        1,
        1,
    );
    let note = add_note_tag(note, "important");
    let note = add_note_tag(note, "work");
    let note = add_note_tag(note, "important");
    assert_eq!(note.tags, vec![s("important"), s("work")]);
    let note = add_note_tag(note, "Work");
    assert_eq!(note.tags, vec![s("important"), s("work"), s("Work")]);
    let note = remove_note_tag(note, "work");
    assert_eq!(note.tags, vec![s("important"), s("Work")]);
    let note = remove_note_tag(note, "absent");
    assert_eq!(note.tags, vec![s("important"), s("Work")]);
    let mut twice = add_note_tag(note, "x");
    twice.tags.push(s("x"));
    let note = remove_note_tag(twice, "x");
    assert_eq!(note.tags, vec![s("important"), s("Work")]);
    assert_eq!(note.title, "Tagged Note");

    assert!(!note.is_favorited);
    let note = toggle_note_favorite(note);
    assert!(note.is_favorited);
    let note = toggle_note_favorite(note);
    assert!(!note.is_favorited);
    assert_eq!(note.updated_at, 1);
}
