use nostromo_notes::config::Config;
use nostromo_notes::listing::{DirEntry, EntryKind};
use nostromo_notes::mode::Mode;
use nostromo_notes::state::{App, Fetch, Key, Loaded, Request, Task};
use nostromo_notes::theme::ColorScheme;

fn entry(dir: &str, name: &str, kind: EntryKind) -> DirEntry {
    DirEntry { path: format!("{}/{}", dir, name), name: name.to_string(), kind }
}

fn config(root: &str) -> Config {
    Config {
        root: root.to_string(),
        template_root: None,
        color_scheme: ColorScheme::Green,
        workflow_folders: vec![],
    }
}

fn session(root: &str, walk: Vec<DirEntry>) -> App {
    App::new(config(root), walk)
}

fn names(v: &[DirEntry]) -> Vec<String> {
    v.iter().map(|e| e.name.clone()).collect()
}

fn is_nothing(r: &Request) -> bool {
    r.tasks.is_empty() && matches!(r.fetch, Fetch::Nothing)
}

fn walked_dir(r: &Request) -> String {
    match &r.fetch {
        Fetch::Walk { dir } => dir.clone(),
        _ => panic!("expected a walk"),
    }
}

#[test]
fn end_to_end_descend_into_directory() {
    let mut app = session("/r", vec![entry("/r", "a.md", EntryKind::File), entry("/r", "notes", EntryKind::Dir)]);
    assert_eq!(names(&app.files), vec!["notes", "a.md"]);
    assert_eq!(app.file_selection, Some(0));
    app.handle_key(Key::Down);
    assert_eq!(app.file_selection, Some(1));
    app.handle_key(Key::Up);
    assert_eq!(app.file_selection, Some(0));
    let r = app.handle_key(Key::Right);
    assert_eq!(walked_dir(&r), "/r/notes");
    assert_eq!(app.root, "/r/notes");
    let r = app.resume(true, Loaded::Entries(vec![entry("/r/notes", "x.md", EntryKind::File), entry("/r/notes", "w.md", EntryKind::File)]));
    assert!(is_nothing(&r));
    assert_eq!(names(&app.files), vec!["w.md", "x.md"]);
    assert_eq!(app.file_selection, Some(0));
    assert_eq!(app.mode, Mode::Normal);
}

#[test]
fn delete_scenario_removes_file_and_returns_to_normal() {
    let mut app = session("/r", vec![entry("/r", "a.md", EntryKind::File), entry("/r", "b.md", EntryKind::File)]);
    let r = app.handle_key(Key::Char('d'));
    assert!(is_nothing(&r));
    assert_eq!(app.mode, Mode::ConfirmingDelete);
    let r = app.handle_key(Key::Char('y'));
    assert_eq!(r.tasks.len(), 1);
    match &r.tasks[0] {
        Task::Remove { path } => assert_eq!(path, "/r/a.md"),
        _ => panic!("expected a removal"),
    }
    assert_eq!(walked_dir(&r), "/r");
    assert_eq!(app.mode, Mode::Normal);
    app.resume(true, Loaded::Entries(vec![entry("/r", "b.md", EntryKind::File)]));
    assert_eq!(names(&app.files), vec!["b.md"]);
    assert_eq!(app.file_selection, Some(0));
    assert_eq!(app.mode, Mode::Normal);
}

#[test]
fn delete_is_declined_with_escape() {
    let mut app = session("/r", vec![entry("/r", "a.md", EntryKind::File)]);
    app.handle_key(Key::Char('d'));
    let r = app.handle_key(Key::Esc);
    assert!(is_nothing(&r));
    assert_eq!(app.mode, Mode::Normal);
    assert!(app.operation_target_file.is_none());
}

#[test]
fn directories_are_not_deleted_moved_or_renamed() {
    let mut app = session("/r", vec![entry("/r", "d", EntryKind::Dir)]);
    app.handle_key(Key::Char('d'));
    assert_eq!(app.mode, Mode::Normal);
    app.handle_key(Key::Char('m'));
    assert_eq!(app.mode, Mode::Normal);
    app.handle_key(Key::Char('r'));
    assert_eq!(app.mode, Mode::Normal);
}

#[test]
fn search_scenario_filters_and_excludes() {
    let walk = vec![
        entry(".", "report.md", EntryKind::File),
        entry(".", "readme.md", EntryKind::File),
        entry(".", "todo.md", EntryKind::File),
    ];
    let mut app = session(".", walk);
    app.handle_key(Key::Char('/'));
    assert_eq!(app.mode, Mode::Search);
    assert_eq!(app.filtered_files.len(), 3);
    app.handle_key(Key::Char('r'));
    app.handle_key(Key::Char('e'));
    assert_eq!(app.search_input, "re");
    let got = names(&app.filtered_files);
    assert_eq!(got.len(), 2);
    assert!(got.contains(&"report.md".to_string()) && got.contains(&"readme.md".to_string()));
    assert_eq!(app.file_selection, Some(0));
    app.handle_key(Key::Backspace);
    assert_eq!(app.search_input, "r");
    app.handle_key(Key::Esc);
    assert_eq!(app.mode, Mode::Normal);
    assert_eq!(app.search_input, "");
    assert!(app.filtered_files.is_empty());
}

#[test]
fn typing_d_in_a_query_does_not_delete() {
    let mut app = session(".", vec![entry(".", "dd.md", EntryKind::File)]);
    app.handle_key(Key::Char('/'));
    app.handle_key(Key::Char('d'));
    assert_eq!(app.mode, Mode::Search);
    assert_eq!(app.search_input, "d");
    app.handle_key(Key::Tab);
    assert!(!app.search_input_mode);
    app.handle_key(Key::Char('d'));
    assert_eq!(app.mode, Mode::ConfirmingDelete);
}

#[test]
fn rename_onto_existing_path_leaves_files_untouched() {
    let walk = vec![entry("/r", "a.md", EntryKind::File), entry("/r", "b.md", EntryKind::File)];
    let mut app = session("/r", walk);
    app.handle_key(Key::Char('r'));
    assert_eq!(app.mode, Mode::Renaming);
    assert_eq!(app.filename_input, "a");
    app.handle_key(Key::Backspace);
    app.handle_key(Key::Char('b'));
    let r = app.handle_key(Key::Enter);
    match &r.tasks[0] {
        Task::RenameIfFree { from, to } => {
            assert_eq!(from, "/r/a.md");
            assert_eq!(to, "/r/b.md");
        },
        _ => panic!("expected a rename"),
    }
    assert_eq!(app.mode, Mode::Normal);
    let r = app.resume(false, Loaded::Entries(vec![entry("/r", "zzz.md", EntryKind::File)]));
    assert!(is_nothing(&r));
    assert_eq!(names(&app.files), vec!["a.md", "b.md"]);
    assert_eq!(app.file_selection, Some(0));
    assert_eq!(app.mode, Mode::Normal);
}

#[test]
fn rename_selects_the_renamed_file() {
    let walk = vec![entry("/r", "a.md", EntryKind::File), entry("/r", "b.md", EntryKind::File)];
    let mut app = session("/r", walk);
    app.handle_key(Key::Char('r'));
    app.handle_key(Key::Backspace);
    for c in "zed.md".chars() {
        app.handle_key(Key::Char(c));
    }
    let r = app.handle_key(Key::Enter);
    assert!(matches!(&r.tasks[0], Task::RenameIfFree { to, .. } if to == "/r/zed.md"));
    app.resume(true, Loaded::Entries(vec![entry("/r", "b.md", EntryKind::File), entry("/r", "zed.md", EntryKind::File)]));
    assert_eq!(app.file_selection, Some(1));
    assert_eq!(app.filename_input, "");
}

#[test]
fn rename_to_the_same_name_does_nothing() {
    let mut app = session("/r", vec![entry("/r", "a.md", EntryKind::File)]);
    app.handle_key(Key::Char('r'));
    let r = app.handle_key(Key::Enter);
    assert!(is_nothing(&r));
    assert_eq!(app.mode, Mode::Normal);
}

#[test]
fn moves_create_the_destination_each_time() {
    let walk = vec![entry("/r", "a.md", EntryKind::File), entry("/r", "b.md", EntryKind::File)];
    let mut app = session("/r", walk);
    for expected_from in ["/r/a.md", "/r/b.md"] {
        app.handle_key(Key::Char('m'));
        assert_eq!(app.mode, Mode::SelectingMoveDestination);
        app.handle_key(Key::Down);
        app.handle_key(Key::Up);
        let r = app.handle_key(Key::Enter);
        assert_eq!(r.tasks.len(), 2);
        match (&r.tasks[0], &r.tasks[1]) {
            (Task::CreateDirAll { path }, Task::Move { from, to }) => {
                assert_eq!(path, "/r/Uploaded");
                assert_eq!(from, expected_from);
                assert_eq!(to, &format!("/r/Uploaded/{}", &expected_from[3..]));
            },
            _ => panic!("expected a folder creation and a move"),
        }
        assert_eq!(app.mode, Mode::Normal);
        let rest: Vec<DirEntry> = if expected_from == "/r/a.md" {
            vec![entry("/r", "Uploaded", EntryKind::Dir), entry("/r", "b.md", EntryKind::File)]
        } else {
            vec![entry("/r", "Uploaded", EntryKind::Dir)]
        };
        app.resume(true, Loaded::Entries(rest));
        if expected_from == "/r/a.md" {
            app.handle_key(Key::Down);
        }
    }
    assert_eq!(names(&app.files), vec!["Uploaded"]);
}

#[test]
fn move_destination_cursor_wraps() {
    let mut app = session("/r", vec![entry("/r", "a.md", EntryKind::File)]);
    app.handle_key(Key::Char('m'));
    assert_eq!(app.move_selection, Some(0));
    app.handle_key(Key::Up);
    assert_eq!(app.move_selection, Some(3));
    app.handle_key(Key::Down);
    assert_eq!(app.move_selection, Some(0));
    app.handle_key(Key::Esc);
    assert_eq!(app.mode, Mode::Normal);
}

#[test]
fn note_from_template_opens_with_template_text() {
    let mut app = App::new(
        Config {
            root: "/r".to_string(),
            template_root: Some("/tpl".to_string()),
            color_scheme: ColorScheme::Green,
            workflow_folders: vec![],
        },
        vec![],
    );
    let r = app.handle_key(Key::Char('T'));
    assert_eq!(walked_dir(&r), "/tpl");
    app.resume(true, Loaded::Entries(vec![entry("/tpl", "daily.md", EntryKind::File)]));
    assert_eq!(app.mode, Mode::SelectingTemplate);
    app.handle_key(Key::Enter);
    assert_eq!(app.mode, Mode::Naming);
    for c in "today".chars() {
        app.handle_key(Key::Char(c));
    }
    let r = app.handle_key(Key::Enter);
    match &r.tasks[0] {
        Task::CopyTemplate { template, path } => {
            assert_eq!(template, "/tpl/daily.md");
            assert_eq!(path, "/r/today.md");
        },
        _ => panic!("expected a copy of the template"),
    }
    assert_eq!(app.filename_input, "");
    assert!(app.pending_template.is_none());
    let r = app.resume(true, Loaded::Entries(vec![entry("/r", "today.md", EntryKind::File)]));
    match &r.fetch {
        Fetch::OpenNote { path } => assert_eq!(path, "/r/today.md"),
        _ => panic!("expected the note to be opened"),
    }
    let r = app.resume(true, Loaded::Text("X".to_string()));
    match &r.fetch {
        Fetch::ShowEditor { text } => assert_eq!(text, "X"),
        _ => panic!("expected the editor"),
    }
    assert_eq!(app.mode, Mode::Editing);
    assert_eq!(app.editing_file_path, Some("/r/today.md".to_string()));
}

#[test]
fn new_note_gets_md_extension_once_and_empty_name_aborts() {
    let mut app = session("/r", vec![]);
    app.handle_key(Key::Char('n'));
    let r = app.handle_key(Key::Enter);
    assert!(is_nothing(&r));
    assert_eq!(app.mode, Mode::Normal);
    app.handle_key(Key::Char('n'));
    for c in "x.md".chars() {
        app.handle_key(Key::Char(c));
    }
    let r = app.handle_key(Key::Enter);
    match &r.tasks[0] {
        Task::WriteNote { path, content } => {
            assert_eq!(path, "/r/x.md");
            assert_eq!(content, "");
        },
        _ => panic!("expected an empty note"),
    }
    let r = app.resume(true, Loaded::Entries(vec![]));
    assert!(is_nothing(&r));
    assert_eq!(app.mode, Mode::Normal);
}

#[test]
fn editor_text_is_written_back_on_escape() {
    let mut app = session("/r", vec![entry("/r", "a.md", EntryKind::File)]);
    let r = app.handle_key(Key::Enter);
    assert!(matches!(&r.fetch, Fetch::OpenNote { path } if path == "/r/a.md"));
    app.resume(true, Loaded::Text("hello".to_string()));
    assert_eq!(app.mode, Mode::Editing);
    let r = app.handle_key(Key::Char('z'));
    assert!(matches!(r.fetch, Fetch::EditorKey));
    let r = app.handle_key(Key::Esc);
    assert!(matches!(r.fetch, Fetch::EditorText));
    let r = app.resume(true, Loaded::Text("hello\nworld".to_string()));
    match &r.tasks[0] {
        Task::WriteNote { path, content } => {
            assert_eq!(path, "/r/a.md");
            assert_eq!(content, "hello\nworld");
        },
        _ => panic!("expected the note to be written"),
    }
    assert!(matches!(r.fetch, Fetch::CloseEditor));
    assert_eq!(app.mode, Mode::Normal);
    assert!(app.editing_file_path.is_none());
}

#[test]
fn copy_puts_plain_text_on_the_clipboard() {
    let mut app = session("/r", vec![entry("/r", "a.md", EntryKind::File)]);
    app.handle_key(Key::Enter);
    app.resume(true, Loaded::Text(String::new()));
    app.handle_key(Key::Copy);
    let r = app.resume(true, Loaded::Text("# T\n**b**".to_string()));
    match &r.tasks[0] {
        Task::CopyToClipboard { text } => assert_eq!(text, "T\n\nb"),
        _ => panic!("expected a clipboard copy"),
    }
    assert_eq!(app.mode, Mode::Editing);
}

#[test]
fn left_goes_to_parent_and_saves_settings() {
    let mut app = session("/a/b", vec![]);
    let r = app.handle_key(Key::Left);
    assert_eq!(app.root, "/a");
    match &r.tasks[0] {
        Task::SaveConfig { text } => assert_eq!(text, "root=/a\ncolor_scheme=Green\n"),
        _ => panic!("expected the settings to be saved"),
    }
    assert_eq!(walked_dir(&r), "/a");
    let mut top = session("/", vec![]);
    let r = top.handle_key(Key::Left);
    assert!(is_nothing(&r));
    assert_eq!(top.root, "/");
}

#[test]
fn change_directory_through_the_browser() {
    let mut app = session("/a", vec![]);
    let r = app.handle_key(Key::Char('c'));
    assert!(matches!(&r.fetch, Fetch::ReadDir { dir } if dir == "/a"));
    app.resume(true, Loaded::Entries(vec![entry("/a", "sub", EntryKind::Dir)]));
    assert_eq!(app.mode, Mode::ChangingDirectory);
    assert_eq!(names(&app.browser_entries), vec!["..", "sub"]);
    app.handle_key(Key::Down);
    let r = app.handle_key(Key::Enter);
    assert!(matches!(&r.fetch, Fetch::Descend { path } if path == "/a/sub"));
    app.resume(true, Loaded::Browse { dir: "/a/sub".to_string(), entries: vec![] });
    assert_eq!(app.current_browser_path, "/a/sub");
    let r = app.handle_key(Key::Char('s'));
    assert_eq!(app.root, "/a/sub");
    assert_eq!(app.mode, Mode::Normal);
    assert_eq!(walked_dir(&r), "/a/sub");
}

#[test]
fn settings_apply_the_highlighted_scheme() {
    let mut app = session(".", vec![]);
    app.handle_key(Key::Char('s'));
    assert_eq!(app.mode, Mode::Settings);
    assert_eq!(app.settings_selection, Some(0));
    app.handle_key(Key::Up);
    assert_eq!(app.settings_selection, Some(6));
    let r = app.handle_key(Key::Enter);
    assert_eq!(app.color_scheme, ColorScheme::BrightRed);
    assert_eq!(app.mode, Mode::Normal);
    assert!(matches!(&r.tasks[0], Task::SaveConfig { text } if text.contains("color_scheme=BrightRed")));
}

#[test]
fn quit_only_from_normal_mode() {
    let mut app = session(".", vec![]);
    app.handle_key(Key::Char('n'));
    let r = app.handle_key(Key::Char('q'));
    assert!(!matches!(r.fetch, Fetch::Quit));
    assert_eq!(app.filename_input, "q");
    app.handle_key(Key::Esc);
    let r = app.handle_key(Key::Char('q'));
    assert!(matches!(r.fetch, Fetch::Quit));
}

#[test]
fn template_folder_is_picked_through_the_browser() {
    let mut app = session("/r", vec![]);
    let r = app.handle_key(Key::Char('T'));
    assert!(matches!(&r.fetch, Fetch::ReadDir { dir } if dir == "/r"));
    app.resume(true, Loaded::Entries(vec![entry("/r", "tpl", EntryKind::Dir)]));
    assert_eq!(app.mode, Mode::SelectingTemplateFolder);
    app.handle_key(Key::Down);
    app.handle_key(Key::Down);
    assert_eq!(app.browser_selection, Some(0));
    app.handle_key(Key::Up);
    assert_eq!(app.browser_selection, Some(1));
    app.handle_key(Key::Enter);
    app.resume(true, Loaded::Browse { dir: "/r/tpl".to_string(), entries: vec![] });
    let r = app.handle_key(Key::Char('s'));
    assert_eq!(app.template_root, Some("/r/tpl".to_string()));
    assert!(matches!(&r.tasks[0], Task::SaveConfig { text } if text.contains("template_root=/r/tpl\n")));
    assert_eq!(walked_dir(&r), "/r/tpl");
    app.resume(true, Loaded::Entries(vec![entry("/r/tpl", "t.md", EntryKind::File)]));
    assert_eq!(app.mode, Mode::SelectingTemplate);
    assert_eq!(names(&app.template_files), vec!["t.md"]);
    app.handle_key(Key::Esc);
    assert_eq!(app.mode, Mode::Normal);
}

#[test]
fn answers_that_do_not_fit_the_request_change_nothing() {
    let mut app = session("/r", vec![entry("/r", "a.md", EntryKind::File)]);
    let r = app.resume(true, Loaded::Text("stray".to_string()));
    assert!(is_nothing(&r));
    assert_eq!(app.mode, Mode::Normal);
    assert_eq!(names(&app.files), vec!["a.md"]);
}

#[test]
fn rename_prompt_starts_with_the_stem() {
    assert_eq!(nostromo_notes::state::file_stem("notes.v2.md"), "notes.v2");
    assert_eq!(nostromo_notes::state::file_stem("README"), "README");
    assert_eq!(nostromo_notes::state::file_stem(".profile"), ".profile");
    assert_eq!(nostromo_notes::state::with_note_extension(&"a".to_string()), "a.md");
    assert_eq!(nostromo_notes::state::with_note_extension(&"a.md".to_string()), "a.md");
}

#[test]
fn enter_in_a_search_opens_the_selected_result() {
    let mut app = session(".", vec![entry(".", "note.md", EntryKind::File)]);
    app.handle_key(Key::Char('/'));
    app.handle_key(Key::Char('n'));
    let r = app.handle_key(Key::Enter);
    assert!(matches!(&r.fetch, Fetch::OpenNote { path } if path == "./note.md"));
}

#[test]
fn escape_drops_the_chosen_template_and_unhandled_keys_do_nothing() {
    let mut app = App::new(
        Config {
            root: "/r".to_string(),
            template_root: Some("/tpl".to_string()),
            color_scheme: ColorScheme::Green,
            workflow_folders: vec![],
        },
        vec![entry("/r", "a.md", EntryKind::File)],
    );
    assert!(app.pending_template.is_none());
    app.handle_key(Key::Char('T'));
    app.resume(true, Loaded::Entries(vec![entry("/tpl", "daily.md", EntryKind::File)]));
    app.handle_key(Key::Enter);
    assert!(app.pending_template.is_some());
    app.handle_key(Key::Esc);
    assert!(app.pending_template.is_none());
    assert_eq!(app.mode, Mode::Normal);
    let r = app.handle_key(Key::Char('x'));
    assert!(is_nothing(&r));
    let r = app.handle_key(Key::Esc);
    assert!(is_nothing(&r));
    assert_eq!(app.mode, Mode::Normal);
    assert_eq!(app.file_selection, Some(0));
}
