//! The session state and the interaction state machine. The machine decides;
//! the program around it does the file-system work that a `Request` names and
//! hands back what it found through `resume`.
use vstd::prelude::*;
use crate::config::{Config, config_text, default_move_destinations, default_destinations, texts, format_config};
use crate::cursor::{cursor_ok, next_spec, previous_spec, next_index, previous_index, clamp_index};
use crate::fuzzy::{filter_files, shows};
use crate::listing::{self, DirEntry, EntryKind, views, in_listing_order, kept, files_keep, dirs_keep, templates_keep, up_entry};
use crate::markdown::{markdown_text, simple_markdown_to_clean_text};
use crate::mode::Mode;
use crate::text::{chars_of, string_of, ends_with, joined, parent_of, path_join, path_parent, push_char, pop_char, clear_text, text_ends_with};
use crate::theme::{ColorScheme, schemes, scheme_index};

verus! {

/// A key press, as the state machine tells keys apart.
#[derive(Clone, Copy, Debug, PartialEq, Eq, Structural)]
pub enum Key {
    Char(char),
    Up,
    Down,
    Left,
    Right,
    Enter,
    Esc,
    Backspace,
    /// Switches a search between typing the query and moving through the results.
    Tab,
    /// The editor's copy shortcut.
    Copy,
    Other,
}

/// File-system work whose outcome the machine does not wait on.
pub enum Task {
    /// Write `content` to `path`.
    WriteNote { path: String, content: String },
    /// Create `path` with the text of `template`, or empty where it cannot be read.
    CopyTemplate { template: String, path: String },
    /// Delete the file at `path`.
    Remove { path: String },
    /// Create the folder `path` and any missing parents.
    CreateDirAll { path: String },
    /// Move the file `from` to `to`.
    Move { from: String, to: String },
    /// Rename `from` to `to` unless something exists at `to`; whether it was
    /// renamed goes back through `resume`.
    RenameIfFree { from: String, to: String },
    /// Replace the settings file with `text`.
    SaveConfig { text: String },
    /// Put `text` on the clipboard.
    CopyToClipboard { text: String },
}

/// What the machine needs next from the world, once the tasks are done.
pub enum Fetch {
    Nothing,
    /// End the session.
    Quit,
    /// Walk `dir` to depth one, each entry with its kind; answer with `Loaded::Entries`.
    Walk { dir: String },
    /// Read the directory `dir`; answer with `Loaded::Entries`.
    ReadDir { dir: String },
    /// Where `path` is a directory, read it under its canonical name; answer
    /// with `Loaded::Browse`, else with `Loaded::Nothing`.
    Descend { path: String },
    /// Read the note at `path` (an unreadable note reads as empty); answer with `Loaded::Text`.
    OpenNote { path: String },
    /// Open the editor on `text`.
    ShowEditor { text: String },
    /// Hand over the editor's text, lines joined by line feeds; answer with `Loaded::Text`.
    EditorText,
    /// Hand the key to the editor.
    EditorKey,
    /// Close the editor.
    CloseEditor,
}

/// The work a key press asks for: the tasks in order, then one fetch.
pub struct Request {
    pub tasks: Vec<Task>,
    pub fetch: Fetch,
}

/// What the world found for a fetch.
pub enum Loaded {
    Nothing,
    Entries(Vec<DirEntry>),
    Browse { dir: String, entries: Vec<DirEntry> },
    Text(String),
}

/// How the file list is taken up once it has been listed again.
pub enum AfterListing {
    /// Select the first entry.
    SelectFirst,
    /// Select the first entry and leave the search.
    SelectFirstLeaveSearch,
    /// Keep the selection, moved back inside the list where needed.
    Clamp,
    /// A rename to this path was tried.
    Renamed(String),
    /// A note was created at this path.
    Created(String),
}

/// What the machine waits for.
pub enum Pending {
    Idle,
    Files(AfterListing),
    /// The browser's first listing; whether it picks the template folder.
    Browser(bool),
    BrowserDescend,
    Templates,
    Note(String),
    SaveEditor,
    CopyEditor,
}

/// The session state.
pub struct App {
    pub mode: Mode,
    pub root: String,
    pub template_root: Option<String>,
    pub files: Vec<DirEntry>,
    pub file_selection: Option<usize>,
    pub filename_input: String,
    pub pending_template: Option<String>,
    pub browser_entries: Vec<DirEntry>,
    pub browser_selection: Option<usize>,
    pub current_browser_path: String,
    pub template_files: Vec<DirEntry>,
    pub template_selection: Option<usize>,
    pub search_input: String,
    /// Whether keys go into the query (else they move through the results).
    pub search_input_mode: bool,
    pub filtered_files: Vec<DirEntry>,
    pub editing_file_path: Option<String>,
    pub operation_target_file: Option<DirEntry>,
    pub move_destinations: Vec<String>,
    pub move_selection: Option<usize>,
    pub color_scheme: ColorScheme,
    pub settings_selection: Option<usize>,
    pub workflow_folders: Vec<String>,
    pub pending: Pending,
}

/// The part of a name before its final dot, as `Path::file_stem` takes it: the
/// whole name where it has no dot, or its only dot comes first.
pub open spec fn stem(n: Seq<char>) -> Seq<char> {
    match last_dot(n) {
        Some(k) => if 0 < k < n.len() { n.subrange(0, k) } else { n },
        None => n,
    }
}

/// The position of the last dot in a name.
pub open spec fn last_dot(n: Seq<char>) -> Option<int>
    decreases n.len(),
{
    if n.len() == 0 {
        None
    } else if n.last() == '.' {
        Some(n.len() - 1)
    } else {
        last_dot(n.drop_last())
    }
}

/// The name of a note: `.md` is added unless the name already ends with it.
pub open spec fn note_name(n: Seq<char>) -> Seq<char> {
    if ends_with(n, ".md"@) { n } else { n + ".md"@ }
}

/// The part of a file name before its final dot.
pub fn file_stem(name: &str) -> (r: String)
    ensures
        r@ == stem(name@),
{
    let c = chars_of(name);
    let mut k = c.len();
    proof {
        assert(c@.subrange(0, c@.len() as int) =~= c@);
    }
    while k > 0 && c[k - 1] != '.'
        invariant
            k <= c@.len(),
            c@ == name@,
            last_dot(c@) == last_dot(c@.subrange(0, k as int)),
        decreases k,
    {
        assert(c@.subrange(0, k as int).drop_last() =~= c@.subrange(0, k - 1));
        k = k - 1;
    }
    if k > 1 {
        let mut out: Vec<char> = Vec::new();
        crate::text::push_range(&mut out, &c, 0, k - 1);
        string_of(out.as_slice())
    } else {
        string_of(c.as_slice())
    }
}

/// The file name with `.md` added unless it ends with it already.
pub fn with_note_extension(name: &String) -> (r: String)
    ensures
        r@ == note_name(name@),
{
    let mut r = name.clone();
    if !text_ends_with(name.as_str(), ".md") {
        r.append(".md");
    }
    r
}

fn nothing() -> (r: Request)
    ensures
        r.tasks@.len() == 0,
        r.fetch is Nothing,
{
    Request { tasks: Vec::new(), fetch: Fetch::Nothing }
}

fn fetch_only(f: Fetch) -> (r: Request)
    ensures
        r.tasks@.len() == 0,
        r.fetch == f,
{
    Request { tasks: Vec::new(), fetch: f }
}

/// A cursor moved back inside a list of `len` items.
pub open spec fn clamp_spec(sel: Option<usize>, len: nat) -> Option<usize> {
    if len == 0 {
        None
    } else {
        match sel {
            None => Some(0usize),
            Some(i) => Some(if i < len { i } else { (len - 1) as usize }),
        }
    }
}

/// `b` is `a` with a new walk of the root taken up: only the file list, its
/// cursor, the results and the search state differ, and a search is left
/// (its query and results emptied).
pub open spec fn relisted(a: App, b: App) -> bool {
    &&& b == (App {
        files: b.files,
        file_selection: b.file_selection,
        mode: b.mode,
        search_input_mode: b.search_input_mode,
        search_input: b.search_input,
        filtered_files: b.filtered_files,
        ..a
    })
    &&& b.mode == (if a.mode == Mode::Search { Mode::Normal } else { a.mode })
    &&& a.mode == Mode::Search ==> b.search_input@.len() == 0 && b.filtered_files@.len() == 0 && b.search_input_mode
    &&& a.mode != Mode::Search ==> b.search_input == a.search_input && b.search_input_mode == a.search_input_mode
}

/// The session with nothing pending.
pub open spec fn idle(a: App) -> App {
    App { pending: Pending::Idle, ..a }
}

/// Whether a mode handles a key (in a search, `typing` tells the sub-mode).
pub open spec fn handles(mode: Mode, typing: bool, key: Key) -> bool {
    match mode {
        Mode::Normal => key == Key::Char('q') || key == Key::Char('n') || key == Key::Char('c') || key == Key::Char(
            'T',
        ) || key == Key::Char('/') || key == Key::Char('s') || key == Key::Char('d') || key == Key::Char('m')
            || key == Key::Char('r') || key == Key::Down || key == Key::Up || key == Key::Left || key
            == Key::Right || key == Key::Enter,
        Mode::Editing => true,
        Mode::Naming | Mode::Renaming => key is Char || key == Key::Enter || key == Key::Esc || key
            == Key::Backspace,
        Mode::ChangingDirectory | Mode::SelectingTemplateFolder => key == Key::Esc || key == Key::Char('s') || key
            == Key::Enter || key == Key::Down || key == Key::Up,
        Mode::SelectingTemplate => key == Key::Esc || key == Key::Enter || key == Key::Down || key == Key::Up,
        Mode::Search => if typing {
            key is Char || key == Key::Backspace || key == Key::Tab || key == Key::Esc || key == Key::Down
                || key == Key::Up || key == Key::Left || key == Key::Right || key == Key::Enter
        } else {
            key == Key::Char('/') || key == Key::Char('d') || key == Key::Char('m') || key == Key::Char('r')
                || key == Key::Tab || key == Key::Esc || key == Key::Down || key == Key::Up || key == Key::Left
                || key == Key::Right || key == Key::Enter
        },
        Mode::ConfirmingDelete => key == Key::Char('y') || key == Key::Char('Y') || key == Key::Enter || key
            == Key::Char('n') || key == Key::Char('N') || key == Key::Esc,
        Mode::SelectingMoveDestination | Mode::Settings => key == Key::Esc || key == Key::Enter || key
            == Key::Down || key == Key::Up,
    }
}

/// The number of color schemes.
pub open spec fn n_schemes() -> nat {
    schemes().len()
}

impl App {
    /// The list that the file cursor moves in: the search results while
    /// searching, else the file list.
    pub open spec fn active(&self) -> Seq<DirEntry> {
        if self.mode == Mode::Search { self.filtered_files@ } else { self.files@ }
    }

    /// The entry under the file cursor.
    pub open spec fn selected(&self) -> Option<DirEntry> {
        match self.file_selection {
            Some(i) => if i < self.active().len() { Some(self.active()[i as int]) } else { None },
            None => None,
        }
    }

    /// The session's invariant: every cursor is `None` over an empty list and
    /// inside its list otherwise; a path is being edited exactly in the editor;
    /// an operation's target is held only while that operation is open.
    pub open spec fn wf(&self) -> bool {
        &&& cursor_ok(self.file_selection, self.active().len())
        &&& self.wf_rest()
    }

    /// The invariant without the file cursor, which a new file list moves.
    pub open spec fn wf_rest(&self) -> bool {
        &&& cursor_ok(self.browser_selection, self.browser_entries@.len())
        &&& cursor_ok(self.template_selection, self.template_files@.len())
        &&& cursor_ok(self.move_selection, self.move_destinations@.len())
        &&& cursor_ok(self.settings_selection, n_schemes())
        &&& (self.editing_file_path is Some <==> self.mode == Mode::Editing)
        &&& (self.operation_target_file is Some ==> (self.mode == Mode::ConfirmingDelete || self.mode
            == Mode::SelectingMoveDestination || self.mode == Mode::Renaming))
    }

    /// The settings as the settings file stores them.
    pub open spec fn config_text(&self) -> Seq<char> {
        config_text(self.root@, match self.template_root {
            Some(t) => Some(t@),
            None => None,
        }, self.color_scheme, texts(self.workflow_folders@))
    }

    /// A session on the settings `config`, in the Normal mode, over the file
    /// list that `walk` (a walk of the root to depth one) gives; the first
    /// file is selected.
    pub fn new(config: Config, walk: Vec<DirEntry>) -> (r: App)
        ensures
            r.wf(),
            r.mode == Mode::Normal,
            r.root@ == config.root@,
            r.template_root == config.template_root,
            r.color_scheme == config.color_scheme,
            r.workflow_folders == config.workflow_folders,
            in_listing_order(views(r.files@)),
            views(r.files@).to_multiset() == kept(walk@, files_keep(config.root@)).to_multiset(),
            r.file_selection == (if r.files@.len() == 0 { None::<usize> } else { Some(0usize) }),
            r.move_destinations@.len() == default_destinations().len(),
            forall|i: int| 0 <= i < r.move_destinations@.len() ==> #[trigger] r.move_destinations@[i]@ == default_destinations()[i],
            r.search_input@.len() == 0,
            r.filename_input@.len() == 0,
            r.pending is Idle,
            r.pending_template is None,
            r.editing_file_path is None,
            r.operation_target_file is None,
            r.search_input_mode,
            r.filtered_files@.len() == 0,
            r.settings_selection == Some(scheme_index(config.color_scheme)),
            r.move_selection == Some(0usize),
    {
        let files = listing::load_files(&config.root, walk);
        let file_selection = if files.len() == 0 { None } else { Some(0) };
        let color_scheme = config.color_scheme;
        App {
            mode: Mode::Normal,
            root: config.root,
            template_root: config.template_root,
            files,
            file_selection,
            filename_input: String::new(),
            pending_template: None,
            browser_entries: Vec::new(),
            browser_selection: None,
            current_browser_path: String::from_str("."),
            template_files: Vec::new(),
            template_selection: None,
            search_input: String::new(),
            search_input_mode: true,
            filtered_files: Vec::new(),
            editing_file_path: None,
            operation_target_file: None,
            move_destinations: default_move_destinations(),
            move_selection: Some(0),
            color_scheme,
            settings_selection: Some(color_scheme.index()),
            workflow_folders: config.workflow_folders,
            pending: Pending::Idle,
        }
    }

    /// The task that writes the settings file.
    pub fn save_config(&self) -> (r: Task)
        ensures
            r matches Task::SaveConfig { text } && text@ == self.config_text(),
    {
        Task::SaveConfig {
            text: format_config(&self.root, &self.template_root, self.color_scheme, &self.workflow_folders),
        }
    }

    /// The list that the file cursor moves in.
    pub fn get_current_files(&self) -> (r: &Vec<DirEntry>)
        ensures
            r@ == self.active(),
    {
        if self.mode == Mode::Search {
            &self.filtered_files
        } else {
            &self.files
        }
    }

    /// Takes up a new walk of the root as the file list; the cursor stays
    /// where it was, moved back inside the list where needed (while searching
    /// it moves over the results, which stay as they were).
    pub fn load_files(&mut self, walk: Vec<DirEntry>)
        requires
            old(self).wf(),
        ensures
            final(self).wf(),
            in_listing_order(views(final(self).files@)),
            views(final(self).files@).to_multiset() == kept(walk@, files_keep(old(self).root@)).to_multiset(),
            final(self).file_selection == (if old(self).mode == Mode::Search {
                old(self).file_selection
            } else {
                clamp_spec(old(self).file_selection, final(self).files@.len())
            }),
            final(self).workflow_folders == old(self).workflow_folders,
            *final(self) == (App {
                files: final(self).files,
                file_selection: final(self).file_selection,
                ..*old(self)
            }),
            final(self).mode == old(self).mode,
            final(self).search_input == old(self).search_input,
            final(self).root == old(self).root,
    {
        self.files = listing::load_files(&self.root, walk);
        if self.mode != Mode::Search {
            self.file_selection = clamp_index(self.file_selection, self.files.len());
        }
    }

    /// Takes up a reading of the browser's folder: `..` first where the
    /// folder has a parent, then its visible sub-folders; the first is selected.
    pub fn load_browser_entries(&mut self, read: Vec<DirEntry>)
        ensures
            parent_of(old(self).current_browser_path@) is Some ==> final(self).browser_entries@.len() > 0
                && final(self).browser_entries@[0]@ == up_entry(old(self).current_browser_path@),
            ({
                let rest = if parent_of(old(self).current_browser_path@) is Some {
                    views(final(self).browser_entries@).drop_first()
                } else {
                    views(final(self).browser_entries@)
                };
                &&& in_listing_order(rest)
                &&& rest.to_multiset() == kept(read@, dirs_keep()).to_multiset()
            }),
            final(self).browser_selection == (if final(self).browser_entries@.len() == 0 {
                None::<usize>
            } else {
                Some(0usize)
            }),
            final(self).root == old(self).root,
            *final(self) == (App {
                browser_entries: final(self).browser_entries,
                browser_selection: final(self).browser_selection,
                ..*old(self)
            }),
    {
        self.browser_entries = listing::load_browser_entries(&self.current_browser_path, read);
        self.browser_selection = if self.browser_entries.len() == 0 { None } else { Some(0) };
    }

    /// Moves the cursor of the list that the mode shows one step forward,
    /// from the last item back to the first.
    pub fn select_next(&mut self)
        requires
            old(self).wf(),
        ensures
            final(self).wf(),
            match old(self).mode {
                Mode::ChangingDirectory | Mode::SelectingTemplateFolder => final(self).browser_selection
                    == next_spec(old(self).browser_selection, old(self).browser_entries@.len())
                    && final(self).file_selection == old(self).file_selection
                    && final(self).template_selection == old(self).template_selection,
                Mode::SelectingTemplate => final(self).template_selection == next_spec(
                    old(self).template_selection,
                    old(self).template_files@.len(),
                ) && final(self).file_selection == old(self).file_selection
                    && final(self).browser_selection == old(self).browser_selection,
                _ => final(self).file_selection == next_spec(old(self).file_selection, old(self).active().len())
                    && final(self).browser_selection == old(self).browser_selection
                    && final(self).template_selection == old(self).template_selection,
            },
            final(self).operation_target_file == old(self).operation_target_file,
            *final(self) == (App {
                file_selection: final(self).file_selection,
                browser_selection: final(self).browser_selection,
                template_selection: final(self).template_selection,
                ..*old(self)
            }),
    {
        match self.mode {
            Mode::ChangingDirectory | Mode::SelectingTemplateFolder => {
                self.browser_selection = next_index(self.browser_selection, self.browser_entries.len());
            },
            Mode::SelectingTemplate => {
                self.template_selection = next_index(self.template_selection, self.template_files.len());
            },
            _ => {
                let n = self.get_current_files().len();
                self.file_selection = next_index(self.file_selection, n);
            },
        }
    }

    /// Moves the cursor of the list that the mode shows one step back, from
    /// the first item round to the last.
    pub fn select_previous(&mut self)
        requires
            old(self).wf(),
        ensures
            final(self).wf(),
            match old(self).mode {
                Mode::ChangingDirectory | Mode::SelectingTemplateFolder => final(self).browser_selection
                    == previous_spec(old(self).browser_selection, old(self).browser_entries@.len())
                    && final(self).file_selection == old(self).file_selection
                    && final(self).template_selection == old(self).template_selection,
                Mode::SelectingTemplate => final(self).template_selection == previous_spec(
                    old(self).template_selection,
                    old(self).template_files@.len(),
                ) && final(self).file_selection == old(self).file_selection
                    && final(self).browser_selection == old(self).browser_selection,
                _ => final(self).file_selection == previous_spec(old(self).file_selection, old(self).active().len())
                    && final(self).browser_selection == old(self).browser_selection
                    && final(self).template_selection == old(self).template_selection,
            },
            final(self).operation_target_file == old(self).operation_target_file,
            *final(self) == (App {
                file_selection: final(self).file_selection,
                browser_selection: final(self).browser_selection,
                template_selection: final(self).template_selection,
                ..*old(self)
            }),
    {
        match self.mode {
            Mode::ChangingDirectory | Mode::SelectingTemplateFolder => {
                self.browser_selection = previous_index(self.browser_selection, self.browser_entries.len());
            },
            Mode::SelectingTemplate => {
                self.template_selection = previous_index(self.template_selection, self.template_files.len());
            },
            _ => {
                let n = self.get_current_files().len();
                self.file_selection = previous_index(self.file_selection, n);
            },
        }
    }

    /// The entry under the file cursor, if any.
    fn selected_entry(&self) -> (r: Option<DirEntry>)
        requires
            self.wf(),
        ensures
            match self.selected() {
                Some(e) => r matches Some(x) && x@ == e@,
                None => r is None,
            },
    {
        match self.file_selection {
            Some(i) => {
                let list = self.get_current_files();
                if i < list.len() {
                    Some(list[i].duplicate())
                } else {
                    None
                }
            },
            None => None,
        }
    }

    /// Opens the selected entry: a file in the editor (its text is fetched
    /// first), a folder as the new root (it is walked first; the first entry is
    /// then selected and a search is left). Nothing is selected: nothing happens.
    pub fn start_editing(&mut self) -> (r: Request)
        requires
            old(self).wf(),
        ensures
            final(self).wf(),
            match old(self).selected() {
                Some(e) => if e.kind == EntryKind::File {
                    &&& r.tasks@.len() == 0
                    &&& r.fetch matches Fetch::OpenNote { path } && path@ == e.path@
                    &&& final(self).pending matches Pending::Note(p) && p@ == e.path@
                    &&& final(self).root == old(self).root
                } else {
                    &&& r.tasks@.len() == 0
                    &&& r.fetch matches Fetch::Walk { dir } && dir@ == e.path@
                    &&& final(self).root@ == e.path@
                    &&& final(self).pending matches Pending::Files(AfterListing::SelectFirstLeaveSearch)
                },
                None => r.tasks@.len() == 0 && r.fetch is Nothing && final(self).root == old(self).root,
            },
            final(self).search_input == old(self).search_input,
            *final(self) == (App {
                pending: final(self).pending,
                root: final(self).root,
                ..*old(self)
            }),
            final(self).files == old(self).files,
            final(self).file_selection == old(self).file_selection,
            final(self).mode == old(self).mode,
    {
        match self.selected_entry() {
            Some(e) => {
                if e.kind == EntryKind::File {
                    self.pending = Pending::Note(e.path.clone());
                    fetch_only(Fetch::OpenNote { path: e.path })
                } else {
                    self.root = e.path.clone();
                    self.pending = Pending::Files(AfterListing::SelectFirstLeaveSearch);
                    fetch_only(Fetch::Walk { dir: e.path })
                }
            },
            None => nothing(),
        }
    }

    /// Leaves the editor: its text is fetched, then written back to the note.
    pub fn stop_editing(&mut self) -> (r: Request)
        requires
            old(self).wf(),
        ensures
            final(self).wf(),
            old(self).mode == Mode::Editing ==> r.tasks@.len() == 0 && r.fetch is EditorText
                && final(self).pending is SaveEditor,
            old(self).mode != Mode::Editing ==> r.tasks@.len() == 0 && r.fetch is Nothing,
            final(self).editing_file_path == old(self).editing_file_path,
            *final(self) == (App {
                pending: final(self).pending,
                ..*old(self)
            }),
    {
        if self.mode == Mode::Editing {
            self.pending = Pending::SaveEditor;
            fetch_only(Fetch::EditorText)
        } else {
            nothing()
        }
    }

    /// Copies the note in the editor to the clipboard as plain text: its text is fetched first.
    pub fn copy_file_to_clipboard(&mut self) -> (r: Request)
        requires
            old(self).wf(),
        ensures
            final(self).wf(),
            old(self).mode == Mode::Editing ==> r.tasks@.len() == 0 && r.fetch is EditorText
                && final(self).pending is CopyEditor,
            old(self).mode != Mode::Editing ==> r.tasks@.len() == 0 && r.fetch is Nothing,
            final(self).editing_file_path == old(self).editing_file_path,
            *final(self) == (App {
                pending: final(self).pending,
                ..*old(self)
            }),
    {
        if self.mode == Mode::Editing {
            self.pending = Pending::CopyEditor;
            fetch_only(Fetch::EditorText)
        } else {
            nothing()
        }
    }

    /// Recomputes the search results from the file list and the query;
    /// while searching, the first result is selected.
    pub fn update_filtered_files(&mut self)
        requires
            old(self).wf_rest(),
            old(self).mode != Mode::Search ==> cursor_ok(old(self).file_selection, old(self).files@.len()),
        ensures
            final(self).wf(),
            shows(views(old(self).files@), old(self).search_input@, views(final(self).filtered_files@)),
            final(self).file_selection == (if old(self).mode != Mode::Search {
                old(self).file_selection
            } else if final(self).filtered_files@.len() == 0 {
                None::<usize>
            } else {
                Some(0usize)
            }),
            final(self).pending == old(self).pending,
            *final(self) == (App {
                filtered_files: final(self).filtered_files,
                file_selection: final(self).file_selection,
                ..*old(self)
            }),
            final(self).files == old(self).files,
            final(self).mode == old(self).mode,
    {
        self.filtered_files = filter_files(&self.files, self.search_input.as_str());
        if self.mode == Mode::Search {
            self.file_selection = if self.filtered_files.len() == 0 { None } else { Some(0) };
        }
    }

    /// Starts a search: an empty query in the typing sub-mode, every file shown.
    pub fn enter_search_mode(&mut self)
        requires
            old(self).wf(),
            old(self).mode == Mode::Normal || old(self).mode == Mode::Search,
        ensures
            final(self).wf(),
            final(self).mode == Mode::Search,
            final(self).search_input_mode,
            final(self).search_input@.len() == 0,
            views(final(self).filtered_files@) == views(old(self).files@),
            final(self).file_selection == (if old(self).files@.len() == 0 { None::<usize> } else { Some(0usize) }),
            final(self).root == old(self).root,
            *final(self) == (App {
                mode: final(self).mode,
                search_input_mode: final(self).search_input_mode,
                search_input: final(self).search_input,
                filtered_files: final(self).filtered_files,
                file_selection: final(self).file_selection,
                ..*old(self)
            }),
    {
        self.mode = Mode::Search;
        self.search_input_mode = true;
        clear_text(&mut self.search_input);
        self.update_filtered_files();
        proof {
            assert(views(self.filtered_files@).len() == views(self.files@).len());
        }
    }

    /// Ends a search: the query and the results are dropped and the first
    /// file is selected.
    pub fn exit_search_mode(&mut self)
        requires
            old(self).wf(),
            old(self).mode == Mode::Normal || old(self).mode == Mode::Search,
        ensures
            final(self).wf(),
            final(self).mode == Mode::Normal,
            final(self).search_input_mode,
            final(self).search_input@.len() == 0,
            final(self).filtered_files@.len() == 0,
            final(self).file_selection == (if old(self).files@.len() == 0 { None::<usize> } else { Some(0usize) }),
            *final(self) == (App {
                mode: Mode::Normal,
                search_input_mode: true,
                search_input: final(self).search_input,
                filtered_files: final(self).filtered_files,
                file_selection: final(self).file_selection,
                ..*old(self)
            }),
    {
        self.mode = Mode::Normal;
        self.search_input_mode = true;
        clear_text(&mut self.search_input);
        self.filtered_files = Vec::new();
        self.file_selection = if self.files.len() == 0 { None } else { Some(0) };
    }

    /// Switches a search between typing the query and moving through the
    /// results; switching to the results recomputes them.
    pub fn toggle_search_mode(&mut self)
        requires
            old(self).wf(),
        ensures
            final(self).wf(),
            old(self).mode == Mode::Search ==> final(self).search_input_mode == !old(self).search_input_mode,
            old(self).mode == Mode::Search && old(self).search_input_mode ==> shows(views(old(self).files@), old(self).search_input@, views(final(self).filtered_files@)),
            old(self).mode != Mode::Search ==> final(self).search_input_mode == old(self).search_input_mode,
            final(self).search_input == old(self).search_input,
            *final(self) == (App {
                search_input_mode: final(self).search_input_mode,
                filtered_files: final(self).filtered_files,
                file_selection: final(self).file_selection,
                ..*old(self)
            }),
    {
        if self.mode == Mode::Search {
            self.search_input_mode = !self.search_input_mode;
            if !self.search_input_mode {
                self.update_filtered_files();
            }
        }
    }

    /// Makes the parent of the root the new root, saves the settings and
    /// walks it (the first entry is then selected and a search is left). A
    /// root without a parent stays.
    pub fn navigate_up_directory(&mut self) -> (r: Request)
        requires
            old(self).wf(),
        ensures
            final(self).wf(),
            match parent_of(old(self).root@) {
                Some(p) => {
                    &&& final(self).root@ == p
                    &&& r.tasks@.len() == 1
                    &&& r.tasks@[0] matches Task::SaveConfig { text } && text@ == final(self).config_text()
                    &&& r.fetch matches Fetch::Walk { dir } && dir@ == p
                    &&& final(self).pending matches Pending::Files(AfterListing::SelectFirstLeaveSearch)
                },
                None => r.tasks@.len() == 0 && r.fetch is Nothing && final(self).root == old(self).root,
            },
            final(self).workflow_folders == old(self).workflow_folders,
            *final(self) == (App {
                root: final(self).root,
                pending: final(self).pending,
                ..*old(self)
            }),
    {
        match path_parent(self.root.as_str()) {
            Some(p) => {
                self.root = p;
                self.pending = Pending::Files(AfterListing::SelectFirstLeaveSearch);
                let save = self.save_config();
                let mut tasks: Vec<Task> = Vec::new();
                tasks.push(save);
                Request { tasks, fetch: Fetch::Walk { dir: self.root.clone() } }
            },
            None => nothing(),
        }
    }

    /// The selected entry where it is a file, to be the target of a delete, a
    /// move or a rename; the cursor is then taken over to the file list.
    fn takes_target(&mut self) -> (r: Option<DirEntry>)
        requires
            old(self).wf(),
        ensures
            match old(self).selected() {
                Some(e) => if e.kind == EntryKind::File {
                    r matches Some(x) && x@ == e@
                } else {
                    r is None
                },
                None => r is None,
            },
            r is Some ==> final(self).file_selection == clamp_spec(old(self).file_selection, old(self).files@.len()),
            r is None ==> final(self).file_selection == old(self).file_selection,
            final(self).wf_rest(),
            final(self).operation_target_file == old(self).operation_target_file,
            *final(self) == (App {
                file_selection: final(self).file_selection,
                ..*old(self)
            }),
            r is None ==> *final(self) == *old(self),
    {
        match self.selected_entry() {
            Some(e) => if e.kind == EntryKind::File {
                self.file_selection = clamp_index(self.file_selection, self.files.len());
                Some(e)
            } else {
                None
            },
            None => None,
        }
    }

    /// Asks to confirm the deletion of the selected entry, where it is a file.
    pub fn start_delete_confirmation(&mut self)
        requires
            old(self).wf(),
            old(self).mode == Mode::Normal || old(self).mode == Mode::Search,
        ensures
            final(self).wf(),
            match old(self).selected() {
                Some(e) => if e.kind == EntryKind::File {
                    &&& final(self).mode == Mode::ConfirmingDelete
                    &&& final(self).operation_target_file matches Some(t) && t@ == e@
                } else {
                    final(self).mode == old(self).mode && final(self).operation_target_file == old(self).operation_target_file
                },
                None => final(self).mode == old(self).mode && final(self).operation_target_file == old(self).operation_target_file,
            },
            final(self).pending == old(self).pending,
            *final(self) == (App {
                file_selection: final(self).file_selection,
                operation_target_file: final(self).operation_target_file,
                mode: final(self).mode,
                ..*old(self)
            }),
            !(old(self).selected() matches Some(e) && e.kind == EntryKind::File) ==> *final(self) == *old(self),
    {
        match self.takes_target() {
            Some(e) => {
                self.operation_target_file = Some(e);
                self.mode = Mode::ConfirmingDelete;
            },
            None => {},
        }
    }

    /// Deletes the target file, walks the root again (the cursor then stays,
    /// moved back inside the list) and returns to the Normal mode.
    pub fn confirm_delete(&mut self) -> (r: Request)
        requires
            old(self).wf(),
            old(self).mode == Mode::ConfirmingDelete,
        ensures
            final(self).wf(),
            final(self).mode == Mode::Normal,
            final(self).operation_target_file is None,
            match old(self).operation_target_file {
                Some(t) => {
                    &&& r.tasks@.len() == 1
                    &&& r.tasks@[0] matches Task::Remove { path } && path@ == t.path@
                    &&& r.fetch matches Fetch::Walk { dir } && dir@ == old(self).root@
                    &&& final(self).pending matches Pending::Files(AfterListing::Clamp)
                },
                None => r.tasks@.len() == 0 && r.fetch is Nothing,
            },
            final(self).root == old(self).root,
            *final(self) == (App {
                mode: final(self).mode,
                operation_target_file: final(self).operation_target_file,
                pending: final(self).pending,
                ..*old(self)
            }),
    {
        self.mode = Mode::Normal;
        match self.operation_target_file.take() {
            Some(t) => {
                self.pending = Pending::Files(AfterListing::Clamp);
                let mut tasks: Vec<Task> = Vec::new();
                tasks.push(Task::Remove { path: t.path });
                Request { tasks, fetch: Fetch::Walk { dir: self.root.clone() } }
            },
            None => nothing(),
        }
    }

    /// Drops the pending operation and its target.
    pub fn cancel_operation(&mut self)
        requires
            old(self).wf(),
            old(self).mode == Mode::ConfirmingDelete || old(self).mode == Mode::SelectingMoveDestination,
        ensures
            final(self).wf(),
            final(self).mode == Mode::Normal,
            final(self).operation_target_file is None,
            final(self).root == old(self).root,
            *final(self) == (App {
                operation_target_file: final(self).operation_target_file,
                mode: final(self).mode,
                ..*old(self)
            }),
    {
        self.operation_target_file = None;
        self.mode = Mode::Normal;
    }

    /// Asks where to move the selected entry, where it is a file; the first
    /// workflow stage is highlighted.
    pub fn start_move_selection(&mut self)
        requires
            old(self).wf(),
            old(self).mode == Mode::Normal || old(self).mode == Mode::Search,
        ensures
            final(self).wf(),
            match old(self).selected() {
                Some(e) => if e.kind == EntryKind::File {
                    &&& final(self).mode == Mode::SelectingMoveDestination
                    &&& final(self).operation_target_file matches Some(t) && t@ == e@
                    &&& final(self).move_selection == (if old(self).move_destinations@.len() == 0 {
                        None::<usize>
                    } else {
                        Some(0usize)
                    })
                } else {
                    final(self).mode == old(self).mode && final(self).operation_target_file == old(self).operation_target_file
                },
                None => final(self).mode == old(self).mode && final(self).operation_target_file == old(self).operation_target_file,
            },
            final(self).pending == old(self).pending,
            *final(self) == (App {
                file_selection: final(self).file_selection,
                operation_target_file: final(self).operation_target_file,
                move_selection: final(self).move_selection,
                mode: final(self).mode,
                ..*old(self)
            }),
            !(old(self).selected() matches Some(e) && e.kind == EntryKind::File) ==> *final(self) == *old(self),
    {
        match self.takes_target() {
            Some(e) => {
                self.operation_target_file = Some(e);
                self.move_selection = if self.move_destinations.len() == 0 { None } else { Some(0) };
                self.mode = Mode::SelectingMoveDestination;
            },
            None => {},
        }
    }

    /// Highlights the next workflow stage, from the last back to the first.
    pub fn move_selection_next(&mut self)
        requires
            old(self).wf(),
        ensures
            final(self).wf(),
            final(self).move_selection == next_spec(old(self).move_selection, old(self).move_destinations@.len()),
            final(self).file_selection == old(self).file_selection,
            *final(self) == (App {
                move_selection: final(self).move_selection,
                ..*old(self)
            }),
    {
        self.move_selection = next_index(self.move_selection, self.move_destinations.len());
    }

    /// Highlights the previous workflow stage, from the first round to the last.
    pub fn move_selection_previous(&mut self)
        requires
            old(self).wf(),
        ensures
            final(self).wf(),
            final(self).move_selection == previous_spec(old(self).move_selection, old(self).move_destinations@.len()),
            final(self).file_selection == old(self).file_selection,
            *final(self) == (App {
                move_selection: final(self).move_selection,
                ..*old(self)
            }),
    {
        self.move_selection = previous_index(self.move_selection, self.move_destinations.len());
    }

    /// Moves the target file into the highlighted stage's folder below the
    /// root, creating that folder where it is missing, then walks the root
    /// again (the cursor then stays, moved back inside the list). Back to the
    /// Normal mode in any case.
    pub fn execute_move(&mut self) -> (r: Request)
        requires
            old(self).wf(),
            old(self).mode == Mode::SelectingMoveDestination,
        ensures
            final(self).wf(),
            final(self).mode == Mode::Normal,
            final(self).operation_target_file is None,
            match (old(self).operation_target_file, old(self).move_selection) {
                (Some(t), Some(i)) => {
                    let dest = joined(old(self).root@, old(self).move_destinations@[i as int]@);
                    &&& r.tasks@.len() == 2
                    &&& r.tasks@[0] matches Task::CreateDirAll { path } && path@ == dest
                    &&& r.tasks@[1] matches Task::Move { from, to } && from@ == t.path@ && to@ == joined(dest, t.name@)
                    &&& r.fetch matches Fetch::Walk { dir } && dir@ == old(self).root@
                    &&& final(self).pending matches Pending::Files(AfterListing::Clamp)
                },
                _ => r.tasks@.len() == 0 && r.fetch is Nothing,
            },
            final(self).root == old(self).root,
            *final(self) == (App {
                mode: final(self).mode,
                operation_target_file: final(self).operation_target_file,
                pending: final(self).pending,
                ..*old(self)
            }),
    {
        self.mode = Mode::Normal;
        let target = self.operation_target_file.take();
        match (target, self.move_selection) {
            (Some(t), Some(i)) => {
                let dest = path_join(self.root.as_str(), self.move_destinations[i].as_str());
                let to = path_join(dest.as_str(), t.name.as_str());
                self.pending = Pending::Files(AfterListing::Clamp);
                let mut tasks: Vec<Task> = Vec::new();
                tasks.push(Task::CreateDirAll { path: dest });
                tasks.push(Task::Move { from: t.path, to });
                Request { tasks, fetch: Fetch::Walk { dir: self.root.clone() } }
            },
            _ => nothing(),
        }
    }

    /// Opens the settings with the current scheme highlighted.
    pub fn enter_settings(&mut self)
        requires
            old(self).wf(),
            old(self).mode == Mode::Normal,
        ensures
            final(self).wf(),
            final(self).mode == Mode::Settings,
            final(self).settings_selection == Some(scheme_index(old(self).color_scheme)),
            final(self).file_selection == old(self).file_selection,
            *final(self) == (App {
                settings_selection: final(self).settings_selection,
                mode: final(self).mode,
                ..*old(self)
            }),
    {
        self.settings_selection = Some(self.color_scheme.index());
        self.mode = Mode::Settings;
    }

    /// Leaves the settings without a change.
    pub fn exit_settings(&mut self)
        requires
            old(self).wf(),
            old(self).mode == Mode::Settings,
        ensures
            final(self).wf(),
            final(self).mode == Mode::Normal,
            final(self).file_selection == old(self).file_selection,
            *final(self) == (App {
                mode: final(self).mode,
                ..*old(self)
            }),
    {
        self.mode = Mode::Normal;
    }

    /// Highlights the next scheme, from the last back to the first.
    pub fn settings_next(&mut self)
        requires
            old(self).wf(),
        ensures
            final(self).wf(),
            final(self).settings_selection == next_spec(old(self).settings_selection, n_schemes()),
            final(self).color_scheme == old(self).color_scheme,
            *final(self) == (App {
                settings_selection: final(self).settings_selection,
                ..*old(self)
            }),
    {
        let n = ColorScheme::all_schemes().len();
        self.settings_selection = next_index(self.settings_selection, n);
    }

    /// Highlights the previous scheme, from the first round to the last.
    pub fn settings_previous(&mut self)
        requires
            old(self).wf(),
        ensures
            final(self).wf(),
            final(self).settings_selection == previous_spec(old(self).settings_selection, n_schemes()),
            final(self).color_scheme == old(self).color_scheme,
            *final(self) == (App {
                settings_selection: final(self).settings_selection,
                ..*old(self)
            }),
    {
        let n = ColorScheme::all_schemes().len();
        self.settings_selection = previous_index(self.settings_selection, n);
    }

    /// Takes the highlighted scheme and saves the settings.
    pub fn apply_color_scheme(&mut self) -> (r: Request)
        requires
            old(self).wf(),
        ensures
            final(self).wf(),
            match old(self).settings_selection {
                Some(i) => {
                    &&& final(self).color_scheme == schemes()[i as int]
                    &&& r.tasks@.len() == 1
                    &&& r.tasks@[0] matches Task::SaveConfig { text } && text@ == final(self).config_text()
                    &&& r.fetch is Nothing
                },
                None => final(self).color_scheme == old(self).color_scheme && r.tasks@.len() == 0 && r.fetch is Nothing,
            },
            final(self).file_selection == old(self).file_selection,
            *final(self) == (App {
                color_scheme: final(self).color_scheme,
                ..*old(self)
            }),
    {
        match self.settings_selection {
            Some(i) => {
                let all = ColorScheme::all_schemes();
                self.color_scheme = all[i];
                let mut tasks: Vec<Task> = Vec::new();
                tasks.push(self.save_config());
                Request { tasks, fetch: Fetch::Nothing }
            },
            None => nothing(),
        }
    }

    /// Asks for a new name for the selected entry, where it is a file; the
    /// prompt starts with the name without its extension.
    pub fn start_rename(&mut self)
        requires
            old(self).wf(),
            old(self).mode == Mode::Normal || old(self).mode == Mode::Search,
        ensures
            final(self).wf(),
            match old(self).selected() {
                Some(e) => if e.kind == EntryKind::File {
                    &&& final(self).mode == Mode::Renaming
                    &&& final(self).operation_target_file matches Some(t) && t@ == e@
                    &&& final(self).filename_input@ == stem(e.name@)
                } else {
                    final(self).mode == old(self).mode && final(self).filename_input == old(self).filename_input
                },
                None => final(self).mode == old(self).mode && final(self).filename_input == old(self).filename_input,
            },
            final(self).pending == old(self).pending,
            *final(self) == (App {
                file_selection: final(self).file_selection,
                filename_input: final(self).filename_input,
                operation_target_file: final(self).operation_target_file,
                mode: final(self).mode,
                ..*old(self)
            }),
            !(old(self).selected() matches Some(e) && e.kind == EntryKind::File) ==> *final(self) == *old(self),
    {
        match self.takes_target() {
            Some(e) => {
                self.filename_input = file_stem(e.name.as_str());
                self.operation_target_file = Some(e);
                self.mode = Mode::Renaming;
            },
            None => {},
        }
    }

    /// Renames the target file to the typed name (with `.md` added unless it
    /// ends with it) in the root. Nothing is renamed where the new path is the
    /// old one or something already exists there; after a rename the root is
    /// walked again and the renamed file selected. Back to the Normal mode in
    /// any case, with the prompt cleared.
    pub fn execute_rename(&mut self) -> (r: Request)
        requires
            old(self).wf(),
            old(self).mode == Mode::Renaming,
        ensures
            final(self).wf(),
            final(self).mode == Mode::Normal,
            final(self).operation_target_file is None,
            final(self).filename_input@.len() == 0,
            match old(self).operation_target_file {
                Some(t) => {
                    let to = joined(old(self).root@, note_name(old(self).filename_input@));
                    if to != t.path@ {
                        &&& r.tasks@.len() == 1
                        &&& r.tasks@[0] matches Task::RenameIfFree { from, to: dest } && from@ == t.path@ && dest@ == to
                        &&& r.fetch matches Fetch::Walk { dir } && dir@ == old(self).root@
                        &&& final(self).pending matches Pending::Files(AfterListing::Renamed(p)) && p@ == to
                    } else {
                        r.tasks@.len() == 0 && r.fetch is Nothing
                    }
                },
                None => r.tasks@.len() == 0 && r.fetch is Nothing,
            },
            final(self).root == old(self).root,
            *final(self) == (App {
                operation_target_file: final(self).operation_target_file,
                filename_input: final(self).filename_input,
                mode: final(self).mode,
                pending: final(self).pending,
                ..*old(self)
            }),
    {
        let target = self.operation_target_file.take();
        let name = with_note_extension(&self.filename_input);
        clear_text(&mut self.filename_input);
        self.mode = Mode::Normal;
        match target {
            Some(t) => {
                let to = path_join(self.root.as_str(), name.as_str());
                if to == t.path {
                    nothing()
                } else {
                    self.pending = Pending::Files(AfterListing::Renamed(to.clone()));
                    let mut tasks: Vec<Task> = Vec::new();
                    tasks.push(Task::RenameIfFree { from: t.path, to });
                    Request { tasks, fetch: Fetch::Walk { dir: self.root.clone() } }
                }
            },
            None => nothing(),
        }
    }

    /// Drops the rename: the prompt and the target.
    pub fn cancel_rename(&mut self)
        requires
            old(self).wf(),
            old(self).mode == Mode::Renaming,
        ensures
            final(self).wf(),
            final(self).mode == Mode::Normal,
            final(self).operation_target_file is None,
            final(self).filename_input@.len() == 0,
            final(self).file_selection == old(self).file_selection,
            *final(self) == (App {
                filename_input: final(self).filename_input,
                operation_target_file: final(self).operation_target_file,
                mode: final(self).mode,
                ..*old(self)
            }),
    {
        clear_text(&mut self.filename_input);
        self.operation_target_file = None;
        self.mode = Mode::Normal;
    }

    /// Opens the directory browser at the root (for a new root, or for the
    /// template folder); the root is read first.
    pub fn enter_directory_browser(&mut self, for_templates: bool) -> (r: Request)
        requires
            old(self).wf(),
        ensures
            final(self).current_browser_path == old(self).root,
            final(self).wf(),
            r.tasks@.len() == 0,
            r.fetch matches Fetch::ReadDir { dir } && dir@ == old(self).root@,
            final(self).pending == Pending::Browser(for_templates),
            final(self).root == old(self).root,
            *final(self) == (App {
                current_browser_path: final(self).current_browser_path,
                pending: final(self).pending,
                ..*old(self)
            }),
    {
        self.current_browser_path = self.root.clone();
        self.pending = Pending::Browser(for_templates);
        fetch_only(Fetch::ReadDir { dir: self.root.clone() })
    }

    /// Goes into the highlighted folder of the browser (it is resolved and
    /// read first).
    pub fn select_browser_entry(&mut self) -> (r: Request)
        requires
            old(self).wf(),
        ensures
            final(self).wf(),
            match old(self).browser_selection {
                Some(i) => {
                    &&& r.tasks@.len() == 0
                    &&& r.fetch matches Fetch::Descend { path } && path@ == old(self).browser_entries@[i as int].path@
                    &&& final(self).pending is BrowserDescend
                },
                None => r.tasks@.len() == 0 && r.fetch is Nothing,
            },
            final(self).browser_selection == old(self).browser_selection,
            *final(self) == (App {
                pending: final(self).pending,
                ..*old(self)
            }),
    {
        match self.browser_selection {
            Some(i) => {
                self.pending = Pending::BrowserDescend;
                fetch_only(Fetch::Descend { path: self.browser_entries[i].path.clone() })
            },
            None => nothing(),
        }
    }

    /// Makes the browser's folder the root, saves the settings and walks the
    /// new root (its first entry is then selected); back to the Normal mode.
    pub fn set_new_root(&mut self) -> (r: Request)
        requires
            old(self).wf(),
            old(self).mode == Mode::ChangingDirectory,
        ensures
            final(self).root == old(self).current_browser_path,
            final(self).wf(),
            final(self).mode == Mode::Normal,
            r.tasks@.len() == 1,
            r.tasks@[0] matches Task::SaveConfig { text } && text@ == final(self).config_text(),
            r.fetch matches Fetch::Walk { dir } && dir@ == old(self).current_browser_path@,
            final(self).pending matches Pending::Files(AfterListing::SelectFirst),
            final(self).color_scheme == old(self).color_scheme,
            *final(self) == (App {
                root: final(self).root,
                mode: final(self).mode,
                pending: final(self).pending,
                ..*old(self)
            }),
    {
        self.root = self.current_browser_path.clone();
        self.mode = Mode::Normal;
        self.pending = Pending::Files(AfterListing::SelectFirst);
        let mut tasks: Vec<Task> = Vec::new();
        tasks.push(self.save_config());
        Request { tasks, fetch: Fetch::Walk { dir: self.root.clone() } }
    }

    /// Lists the templates of the template folder (it is walked first); with
    /// no template folder set, opens the browser to pick one.
    pub fn start_template_workflow(&mut self) -> (r: Request)
        requires
            old(self).wf(),
        ensures
            final(self).wf(),
            match old(self).template_root {
                Some(t) => {
                    &&& r.tasks@.len() == 0
                    &&& r.fetch matches Fetch::Walk { dir } && dir@ == t@
                    &&& final(self).pending is Templates
                },
                None => {
                    &&& r.tasks@.len() == 0
                    &&& r.fetch matches Fetch::ReadDir { dir } && dir@ == old(self).root@
                    &&& final(self).pending == Pending::Browser(true)
                    &&& final(self).current_browser_path == old(self).root
                },
            },
            final(self).root == old(self).root,
            *final(self) == (App {
                pending: final(self).pending,
                current_browser_path: final(self).current_browser_path,
                ..*old(self)
            }),
    {
        match &self.template_root {
            Some(t) => {
                let dir = t.clone();
                self.pending = Pending::Templates;
                fetch_only(Fetch::Walk { dir })
            },
            None => self.enter_directory_browser(true),
        }
    }

    /// Makes the browser's folder the template folder, saves the settings and
    /// lists its templates (it is walked first).
    pub fn set_template_root(&mut self) -> (r: Request)
        requires
            old(self).wf(),
            old(self).mode == Mode::SelectingTemplateFolder,
        ensures
            final(self).wf(),
            final(self).template_root == Some(old(self).current_browser_path),
            r.tasks@.len() == 1,
            r.tasks@[0] matches Task::SaveConfig { text } && text@ == final(self).config_text(),
            r.fetch matches Fetch::Walk { dir } && dir@ == old(self).current_browser_path@,
            final(self).pending is Templates,
            final(self).root == old(self).root,
            *final(self) == (App {
                template_root: final(self).template_root,
                pending: final(self).pending,
                current_browser_path: final(self).current_browser_path,
                ..*old(self)
            }),
    {
        self.template_root = Some(self.current_browser_path.clone());
        let save = self.save_config();
        let mut req = self.start_template_workflow();
        let mut tasks: Vec<Task> = Vec::new();
        tasks.push(save);
        req.tasks = tasks;
        req
    }

    /// Takes the highlighted template for the next note and asks for its name.
    pub fn select_template(&mut self)
        requires
            old(self).wf(),
            old(self).mode == Mode::SelectingTemplate,
        ensures
            final(self).wf(),
            match old(self).template_selection {
                Some(i) => final(self).mode == Mode::Naming && (final(self).pending_template matches Some(t)
                    && t@ == old(self).template_files@[i as int].path@),
                None => final(self).mode == old(self).mode && final(self).pending_template == old(self).pending_template,
            },
            final(self).file_selection == old(self).file_selection,
            *final(self) == (App {
                pending_template: final(self).pending_template,
                mode: final(self).mode,
                ..*old(self)
            }),
    {
        match self.template_selection {
            Some(i) => {
                self.pending_template = Some(self.template_files[i].path.clone());
                self.mode = Mode::Naming;
            },
            None => {},
        }
    }

    /// Creates the note named in the prompt (`.md` is added unless the name
    /// ends with it) in the root, with the chosen template's text or empty, and
    /// walks the root again (the new note is then opened in the editor). An
    /// empty name creates nothing and returns to the Normal mode. The prompt
    /// and the chosen template are cleared.
    pub fn create_new_note(&mut self) -> (r: Request)
        requires
            old(self).wf(),
            old(self).mode == Mode::Naming,
        ensures
            final(self).wf(),
            final(self).filename_input@.len() == 0,
            old(self).filename_input@.len() == 0 ==> final(self).mode == Mode::Normal && r.tasks@.len() == 0
                && r.fetch is Nothing && final(self).pending_template is None,
            old(self).filename_input@.len() > 0 ==> {
                let path = joined(old(self).root@, note_name(old(self).filename_input@));
                &&& final(self).mode == Mode::Naming
                &&& final(self).pending_template is None
                &&& r.tasks@.len() == 1
                &&& match old(self).pending_template {
                    Some(t) => r.tasks@[0] matches Task::CopyTemplate { template, path: p } && template@ == t@
                        && p@ == path,
                    None => r.tasks@[0] matches Task::WriteNote { path: p, content } && p@ == path
                        && content@.len() == 0,
                }
                &&& r.fetch matches Fetch::Walk { dir } && dir@ == old(self).root@
                &&& final(self).pending matches Pending::Files(AfterListing::Created(p)) && p@ == path
            },
            final(self).root == old(self).root,
            *final(self) == (App {
                mode: final(self).mode,
                filename_input: final(self).filename_input,
                pending_template: final(self).pending_template,
                pending: final(self).pending,
                ..*old(self)
            }),
    {
        if self.filename_input.unicode_len() == 0 {
            self.mode = Mode::Normal;
            self.pending_template = None;
            clear_text(&mut self.filename_input);
            return nothing();
        }
        let name = with_note_extension(&self.filename_input);
        let path = path_join(self.root.as_str(), name.as_str());
        let task = match self.pending_template.take() {
            Some(t) => Task::CopyTemplate { template: t, path: path.clone() },
            None => Task::WriteNote { path: path.clone(), content: String::new() },
        };
        clear_text(&mut self.filename_input);
        self.pending = Pending::Files(AfterListing::Created(path));
        let mut tasks: Vec<Task> = Vec::new();
        tasks.push(task);
        Request { tasks, fetch: Fetch::Walk { dir: self.root.clone() } }
    }

    /// Ends a search before the file list is taken up again.
    fn leave_search(&mut self)
        requires
            old(self).wf(),
        ensures
            final(self).wf(),
            final(self).mode != Mode::Search,
            old(self).mode != Mode::Search ==> *final(self) == *old(self),
            old(self).mode == Mode::Search ==> final(self).mode == Mode::Normal && final(self).search_input@.len() == 0
                && final(self).filtered_files@.len() == 0 && final(self).search_input_mode,
            *final(self) == (App {
                mode: final(self).mode,
                search_input_mode: final(self).search_input_mode,
                search_input: final(self).search_input,
                filtered_files: final(self).filtered_files,
                file_selection: final(self).file_selection,
                ..*old(self)
            }),
            final(self).files == old(self).files,
            final(self).root == old(self).root,
    {
        if self.mode == Mode::Search {
            self.exit_search_mode();
        }
    }

    fn take_walk(&mut self, after: AfterListing, ok: bool, w: Vec<DirEntry>) -> (r: Request)
        requires
            old(self).wf(),
        ensures
            final(self).wf(),
            match after {
                AfterListing::SelectFirst => {
                    &&& in_listing_order(views(final(self).files@))
                    &&& views(final(self).files@).to_multiset() == kept(w@, files_keep(old(self).root@)).to_multiset()
                    &&& final(self).file_selection == (if final(self).files@.len() == 0 { None::<usize> } else { Some(0usize) })
                    &&& relisted(*old(self), *final(self))
                    &&& r.tasks@.len() == 0 && r.fetch is Nothing
                },
                AfterListing::SelectFirstLeaveSearch => {
                    &&& in_listing_order(views(final(self).files@))
                    &&& views(final(self).files@).to_multiset() == kept(w@, files_keep(old(self).root@)).to_multiset()
                    &&& final(self).file_selection == (if final(self).files@.len() == 0 { None::<usize> } else { Some(0usize) })
                    &&& relisted(*old(self), *final(self))
                    &&& r.tasks@.len() == 0 && r.fetch is Nothing
                },
                AfterListing::Clamp => {
                    &&& in_listing_order(views(final(self).files@))
                    &&& views(final(self).files@).to_multiset() == kept(w@, files_keep(old(self).root@)).to_multiset()
                    &&& old(self).mode != Mode::Search ==> final(self).file_selection == clamp_spec(old(self).file_selection, final(self).files@.len())
                    &&& final(self).search_input@.len() > 0 ==> shows(views(final(self).files@), final(self).search_input@, views(final(self).filtered_files@))
                    &&& relisted(*old(self), *final(self))
                    &&& r.tasks@.len() == 0 && r.fetch is Nothing
                },
                AfterListing::Renamed(p) => if ok {
                    &&& in_listing_order(views(final(self).files@))
                    &&& views(final(self).files@).to_multiset() == kept(w@, files_keep(old(self).root@)).to_multiset()
                    &&& (exists|i: int| 0 <= i < final(self).files@.len() && #[trigger] final(self).files@[i].path@ == p@)
                        ==> (final(self).file_selection matches Some(k) && final(self).files@[k as int].path@ == p@)
                    &&& final(self).search_input@.len() > 0 ==> shows(views(final(self).files@), final(self).search_input@, views(final(self).filtered_files@))
                    &&& relisted(*old(self), *final(self))
                    &&& r.tasks@.len() == 0 && r.fetch is Nothing
                } else {
                    &&& *final(self) == *old(self)
                    &&& r.tasks@.len() == 0 && r.fetch is Nothing
                },
                AfterListing::Created(p) => {
                    &&& in_listing_order(views(final(self).files@))
                    &&& views(final(self).files@).to_multiset() == kept(w@, files_keep(old(self).root@)).to_multiset()
                    &&& if exists|i: int| 0 <= i < final(self).files@.len() && #[trigger] final(self).files@[i].path@ == p@ {
                        &&& final(self).file_selection matches Some(k) && final(self).files@[k as int].path@ == p@
                        &&& (final(self).files@[final(self).file_selection.unwrap() as int].kind == EntryKind::File ==> {
                            &&& r.fetch matches Fetch::OpenNote { path } && path@ == p@
                            &&& final(self).pending matches Pending::Note(q) && q@ == p@
                            &&& final(self).root == old(self).root
                        })
                        &&& relisted(*old(self), App { pending: old(self).pending, root: old(self).root, ..*final(self) })
                    } else {
                        &&& final(self).mode == Mode::Normal && r.tasks@.len() == 0 && r.fetch is Nothing
                        &&& final(self).operation_target_file is None && final(self).editing_file_path is None
                        &&& relisted(*old(self), App {
                            mode: if old(self).mode == Mode::Search { Mode::Normal } else { old(self).mode },
                            operation_target_file: old(self).operation_target_file,
                            editing_file_path: old(self).editing_file_path,
                            ..*final(self)
                        })
                    }
                },
            },
    {
        match after {
            AfterListing::SelectFirst | AfterListing::SelectFirstLeaveSearch => {
                self.leave_search();
                self.load_files(w);
                self.file_selection = if self.files.len() == 0 { None } else { Some(0) };
                nothing()
            },
            AfterListing::Clamp => {
                self.leave_search();
                self.load_files(w);
                if self.search_input.unicode_len() > 0 {
                    self.update_filtered_files();
                }
                nothing()
            },
            AfterListing::Renamed(p) => {
                if ok {
                    self.leave_search();
                    self.load_files(w);
                    match position_of(&self.files, &p) {
                        Some(i) => {
                            self.file_selection = Some(i);
                        },
                        None => {},
                    }
                    let ghost a1 = *self;
                    assert((exists|i: int| 0 <= i < a1.files@.len() && #[trigger] a1.files@[i].path@ == p@)
                        ==> (a1.file_selection matches Some(k) && a1.files@[k as int].path@ == p@));
                    if self.search_input.unicode_len() > 0 {
                        self.update_filtered_files();
                    }
                    assert(self.files@ == a1.files@ && self.file_selection == a1.file_selection);
                    assert((exists|i: int| 0 <= i < self.files@.len() && #[trigger] self.files@[i].path@ == p@)
                        ==> (self.file_selection matches Some(k) && self.files@[k as int].path@ == p@)) by {
                        if exists|i: int| 0 <= i < self.files@.len() && #[trigger] self.files@[i].path@ == p@ {
                            let i = choose|i: int| 0 <= i < self.files@.len() && #[trigger] self.files@[i].path@ == p@;
                            assert(a1.files@[i].path@ == p@);
                        }
                    }
                }
                nothing()
            },
            AfterListing::Created(p) => {
                self.leave_search();
                self.load_files(w);
                match position_of(&self.files, &p) {
                    Some(i) => {
                        self.file_selection = Some(i);
                        let ghost a1 = *self;
                        let r = self.start_editing();
                        assert(*self == (App { pending: self.pending, root: self.root, ..a1 }));
                        assert(self.files@ == a1.files@ && self.file_selection == Some(i));
                        assert(self.files@[i as int].path@ == p@);
                        r
                    },
                    None => {
                        self.mode = Mode::Normal;
                        self.operation_target_file = None;
                        self.editing_file_path = None;
                        nothing()
                    },
                }
            },
        }
    }

    /// Takes up what the world found for the last request, and says what to
    /// do next. A walk of the root becomes the file list (then, after a new
    /// root, the first entry is selected; after a delete or a move the cursor
    /// stays, moved back inside the list; after a rename that took place, the
    /// renamed file is selected; after a note was created it is selected and
    /// opened). A reading of a folder fills the browser, a walk of the template
    /// folder the template list, a note's text the editor; the editor's text
    /// is written back or copied. `ok` says whether the request's tasks all
    /// succeeded. What does not answer the pending request changes nothing.
    pub fn resume(&mut self, ok: bool, loaded: Loaded) -> (r: Request)
        requires
            old(self).wf(),
        ensures
            final(self).wf(),
            match (old(self).pending, loaded) {
                (Pending::Files(AfterListing::SelectFirst), Loaded::Entries(w))
                | (Pending::Files(AfterListing::SelectFirstLeaveSearch), Loaded::Entries(w)) => {
                    &&& in_listing_order(views(final(self).files@))
                    &&& views(final(self).files@).to_multiset() == kept(w@, files_keep(old(self).root@)).to_multiset()
                    &&& final(self).file_selection == (if final(self).files@.len() == 0 { None::<usize> } else { Some(0usize) })
                    &&& relisted(idle(*old(self)), *final(self))
                    &&& r.tasks@.len() == 0 && r.fetch is Nothing
                },
                (Pending::Files(AfterListing::Clamp), Loaded::Entries(w)) => {
                    &&& in_listing_order(views(final(self).files@))
                    &&& views(final(self).files@).to_multiset() == kept(w@, files_keep(old(self).root@)).to_multiset()
                    &&& old(self).mode != Mode::Search ==> final(self).file_selection == clamp_spec(old(self).file_selection, final(self).files@.len())
                    &&& final(self).search_input@.len() > 0 ==> shows(views(final(self).files@), final(self).search_input@, views(final(self).filtered_files@))
                    &&& relisted(idle(*old(self)), *final(self))
                    &&& r.tasks@.len() == 0 && r.fetch is Nothing
                },
                (Pending::Files(AfterListing::Renamed(p)), Loaded::Entries(w)) => if ok {
                    &&& in_listing_order(views(final(self).files@))
                    &&& views(final(self).files@).to_multiset() == kept(w@, files_keep(old(self).root@)).to_multiset()
                    &&& (exists|i: int| 0 <= i < final(self).files@.len() && #[trigger] final(self).files@[i].path@ == p@)
                        ==> (final(self).file_selection matches Some(k) && final(self).files@[k as int].path@ == p@)
                    &&& final(self).search_input@.len() > 0 ==> shows(views(final(self).files@), final(self).search_input@, views(final(self).filtered_files@))
                    &&& relisted(idle(*old(self)), *final(self))
                    &&& r.tasks@.len() == 0 && r.fetch is Nothing
                } else {
                    &&& *final(self) == idle(*old(self))
                    &&& r.tasks@.len() == 0 && r.fetch is Nothing
                },
                (Pending::Files(AfterListing::Created(p)), Loaded::Entries(w)) => {
                    &&& in_listing_order(views(final(self).files@))
                    &&& views(final(self).files@).to_multiset() == kept(w@, files_keep(old(self).root@)).to_multiset()
                    &&& if exists|i: int| 0 <= i < final(self).files@.len() && #[trigger] final(self).files@[i].path@ == p@ {
                        &&& final(self).file_selection matches Some(k) && final(self).files@[k as int].path@ == p@
                        &&& (final(self).files@[final(self).file_selection.unwrap() as int].kind == EntryKind::File ==> {
                            &&& r.fetch matches Fetch::OpenNote { path } && path@ == p@
                            &&& final(self).pending matches Pending::Note(q) && q@ == p@
                            &&& final(self).root == old(self).root
                        })
                        &&& relisted(idle(*old(self)), App { pending: Pending::Idle, root: old(self).root, ..*final(self) })
                    } else {
                        &&& final(self).mode == Mode::Normal && r.tasks@.len() == 0 && r.fetch is Nothing
                        &&& final(self).operation_target_file is None && final(self).editing_file_path is None
                        &&& relisted(idle(*old(self)), App {
                            mode: if old(self).mode == Mode::Search { Mode::Normal } else { old(self).mode },
                            operation_target_file: old(self).operation_target_file,
                            editing_file_path: old(self).editing_file_path,
                            ..*final(self)
                        })
                    }
                },
                (Pending::Browser(for_templates), Loaded::Entries(read)) => {
                    &&& final(self).mode == (if for_templates { Mode::SelectingTemplateFolder } else { Mode::ChangingDirectory })
                    &&& final(self).current_browser_path == old(self).current_browser_path
                    &&& (if parent_of(old(self).current_browser_path@) is Some {
                        views(final(self).browser_entries@).drop_first()
                    } else {
                        views(final(self).browser_entries@)
                    }).to_multiset() == kept(read@, dirs_keep()).to_multiset()
                    &&& final(self).browser_selection == (if final(self).browser_entries@.len() == 0 { None::<usize> } else { Some(0usize) })
                    &&& final(self).operation_target_file is None && final(self).editing_file_path is None
                    &&& old(self).mode != Mode::Search ==> final(self).file_selection == old(self).file_selection
                    &&& *final(self) == (App {
                        mode: final(self).mode,
                        browser_entries: final(self).browser_entries,
                        browser_selection: final(self).browser_selection,
                        file_selection: final(self).file_selection,
                        search_input_mode: final(self).search_input_mode,
                        search_input: final(self).search_input,
                        filtered_files: final(self).filtered_files,
                        operation_target_file: final(self).operation_target_file,
                        editing_file_path: final(self).editing_file_path,
                        pending: Pending::Idle,
                        ..*old(self)
                    })
                    &&& r.tasks@.len() == 0 && r.fetch is Nothing
                },
                (Pending::BrowserDescend, Loaded::Browse { dir, entries }) => {
                    &&& final(self).current_browser_path == dir
                    &&& (if parent_of(dir@) is Some {
                        views(final(self).browser_entries@).drop_first()
                    } else {
                        views(final(self).browser_entries@)
                    }).to_multiset() == kept(entries@, dirs_keep()).to_multiset()
                    &&& final(self).browser_selection == (if final(self).browser_entries@.len() == 0 { None::<usize> } else { Some(0usize) })
                    &&& *final(self) == (App {
                        current_browser_path: final(self).current_browser_path,
                        browser_entries: final(self).browser_entries,
                        browser_selection: final(self).browser_selection,
                        pending: Pending::Idle,
                        ..*old(self)
                    })
                    &&& r.tasks@.len() == 0 && r.fetch is Nothing
                },
                (Pending::Templates, Loaded::Entries(w)) => {
                    &&& final(self).mode == Mode::SelectingTemplate
                    &&& views(final(self).template_files@) == kept(w@, templates_keep())
                    &&& final(self).template_selection == (if final(self).template_files@.len() == 0 { None::<usize> } else { Some(0usize) })
                    &&& final(self).operation_target_file is None && final(self).editing_file_path is None
                    &&& old(self).mode != Mode::Search ==> final(self).file_selection == old(self).file_selection
                    &&& *final(self) == (App {
                        mode: final(self).mode,
                        template_files: final(self).template_files,
                        template_selection: final(self).template_selection,
                        file_selection: final(self).file_selection,
                        search_input_mode: final(self).search_input_mode,
                        search_input: final(self).search_input,
                        filtered_files: final(self).filtered_files,
                        operation_target_file: final(self).operation_target_file,
                        editing_file_path: final(self).editing_file_path,
                        pending: Pending::Idle,
                        ..*old(self)
                    })
                    &&& r.tasks@.len() == 0 && r.fetch is Nothing
                },
                (Pending::Note(p), Loaded::Text(t)) => {
                    &&& final(self).mode == Mode::Editing
                    &&& final(self).editing_file_path == Some(p)
                    &&& final(self).operation_target_file is None
                    &&& final(self).file_selection == (if old(self).mode == Mode::Search {
                        clamp_spec(old(self).file_selection, old(self).files@.len())
                    } else {
                        old(self).file_selection
                    })
                    &&& *final(self) == (App {
                        mode: final(self).mode,
                        editing_file_path: final(self).editing_file_path,
                        operation_target_file: final(self).operation_target_file,
                        file_selection: final(self).file_selection,
                        pending: Pending::Idle,
                        ..*old(self)
                    })
                    &&& r.tasks@.len() == 0
                    &&& r.fetch matches Fetch::ShowEditor { text } && text@ == t@
                },
                (Pending::SaveEditor, Loaded::Text(t)) => match old(self).editing_file_path {
                    Some(p) => {
                        &&& final(self).mode == Mode::Normal
                        &&& final(self).editing_file_path is None
                        &&& r.tasks@.len() == 1
                        &&& r.tasks@[0] matches Task::WriteNote { path, content } && path@ == p@ && content@ == t@
                        &&& r.fetch is CloseEditor
                        &&& *final(self) == (App {
                            mode: Mode::Normal,
                            editing_file_path: None,
                            pending: Pending::Idle,
                            ..*old(self)
                        })
                    },
                    None => r.tasks@.len() == 0 && r.fetch is Nothing && *final(self) == idle(*old(self)),
                },
                (Pending::CopyEditor, Loaded::Text(t)) => {
                    &&& final(self).mode == old(self).mode
                    &&& r.tasks@.len() == 1
                    &&& r.tasks@[0] matches Task::CopyToClipboard { text } && text@ == markdown_text(t@)
                    &&& r.fetch is Nothing
                    &&& *final(self) == idle(*old(self))
                },
                _ => {
                    &&& *final(self) == idle(*old(self))
                    &&& r.tasks@.len() == 0 && r.fetch is Nothing
                },
            },
    {
        let mut pending = Pending::Idle;
        core::mem::swap(&mut self.pending, &mut pending);
        match (pending, loaded) {
            (Pending::Files(after), Loaded::Entries(w)) => self.take_walk(after, ok, w),
            (Pending::Browser(for_templates), Loaded::Entries(read)) => {
                self.leave_search();
                self.operation_target_file = None;
                self.editing_file_path = None;
                self.load_browser_entries(read);
                self.mode = if for_templates { Mode::SelectingTemplateFolder } else { Mode::ChangingDirectory };
                nothing()
            },
            (Pending::BrowserDescend, Loaded::Browse { dir, entries }) => {
                self.current_browser_path = dir;
                self.load_browser_entries(entries);
                nothing()
            },
            (Pending::Templates, Loaded::Entries(w)) => {
                self.leave_search();
                self.operation_target_file = None;
                self.editing_file_path = None;
                self.template_files = listing::load_template_files(w);
                self.template_selection = if self.template_files.len() == 0 { None } else { Some(0) };
                self.mode = Mode::SelectingTemplate;
                nothing()
            },
            (Pending::Note(p), Loaded::Text(t)) => {
                if self.mode == Mode::Search {
                    self.file_selection = clamp_index(self.file_selection, self.files.len());
                }
                self.operation_target_file = None;
                self.editing_file_path = Some(p);
                self.mode = Mode::Editing;
                fetch_only(Fetch::ShowEditor { text: t })
            },
            (Pending::SaveEditor, Loaded::Text(t)) => {
                match self.editing_file_path.take() {
                    Some(p) => {
                        self.mode = Mode::Normal;
                        let mut tasks: Vec<Task> = Vec::new();
                        tasks.push(Task::WriteNote { path: p, content: t });
                        Request { tasks, fetch: Fetch::CloseEditor }
                    },
                    None => nothing(),
                }
            },
            (Pending::CopyEditor, Loaded::Text(t)) => {
                let mut tasks: Vec<Task> = Vec::new();
                tasks.push(Task::CopyToClipboard { text: simple_markdown_to_clean_text(t.as_str()) });
                Request { tasks, fetch: Fetch::Nothing }
            },
            _ => nothing(),
        }
    }

    /// Types a character into the search query and recomputes the results.
    fn search_type(&mut self, c: char)
        requires
            old(self).wf(),
            old(self).mode == Mode::Search,
        ensures
            final(self).wf(),
            final(self).mode == Mode::Search,
            final(self).search_input@ == old(self).search_input@.push(c),
            shows(views(old(self).files@), final(self).search_input@, views(final(self).filtered_files@)),
            final(self).root == old(self).root,
            *final(self) == (App {
                search_input: final(self).search_input,
                filtered_files: final(self).filtered_files,
                file_selection: final(self).file_selection,
                ..*old(self)
            }),
    {
        push_char(&mut self.search_input, c);
        self.update_filtered_files();
    }

    /// Takes the last character off the search query and recomputes the results.
    fn search_erase(&mut self)
        requires
            old(self).wf(),
            old(self).mode == Mode::Search,
        ensures
            final(self).wf(),
            final(self).mode == Mode::Search,
            final(self).search_input@ == (if old(self).search_input@.len() == 0 {
                old(self).search_input@
            } else {
                old(self).search_input@.drop_last()
            }),
            shows(views(old(self).files@), final(self).search_input@, views(final(self).filtered_files@)),
            final(self).root == old(self).root,
            *final(self) == (App {
                search_input: final(self).search_input,
                filtered_files: final(self).filtered_files,
                file_selection: final(self).file_selection,
                ..*old(self)
            }),
    {
        pop_char(&mut self.search_input);
        self.update_filtered_files();
    }

    /// Runs one key press through the state machine: what it does depends on
    /// the mode, as the key table of the session says; keys that a mode does
    /// not handle change nothing. The request names the work to do next.
    pub fn handle_key(&mut self, key: Key) -> (r: Request)
        requires
            old(self).wf(),
        ensures
            final(self).wf(),
            (r.fetch is Quit) <==> (old(self).mode == Mode::Normal && key == Key::Char('q')),
            // Normal
            old(self).mode == Mode::Normal && key == Key::Char('n') ==> final(self).mode == Mode::Naming
                && final(self).pending_template is None,
            old(self).mode == Mode::Normal && key == Key::Char('c') ==> (r.fetch matches Fetch::ReadDir { dir }
                && dir@ == old(self).root@) && final(self).pending == Pending::Browser(false),
            old(self).mode == Mode::Normal && key == Key::Char('T') ==> match old(self).template_root {
                Some(t) => r.fetch matches Fetch::Walk { dir } && dir@ == t@ && final(self).pending is Templates,
                None => r.fetch matches Fetch::ReadDir { dir } && dir@ == old(self).root@ && final(self).pending
                    == Pending::Browser(true),
            },
            old(self).mode == Mode::Normal && key == Key::Char('/') ==> final(self).mode == Mode::Search
                && final(self).search_input_mode && final(self).search_input@.len() == 0 && views(
                final(self).filtered_files@,
            ) == views(old(self).files@),
            old(self).mode == Mode::Normal && key == Key::Char('s') ==> final(self).mode == Mode::Settings
                && final(self).settings_selection == Some(scheme_index(old(self).color_scheme)),
            (old(self).mode == Mode::Normal || (old(self).mode == Mode::Search && !old(self).search_input_mode))
                && key == Key::Char('d') ==> match old(self).selected() {
                Some(e) => e.kind == EntryKind::File ==> final(self).mode == Mode::ConfirmingDelete && (
                final(self).operation_target_file matches Some(t) && t@ == e@),
                None => final(self).mode == old(self).mode,
            },
            (old(self).mode == Mode::Normal || (old(self).mode == Mode::Search && !old(self).search_input_mode))
                && key == Key::Char('m') ==> match old(self).selected() {
                Some(e) => e.kind == EntryKind::File ==> final(self).mode == Mode::SelectingMoveDestination && (
                final(self).operation_target_file matches Some(t) && t@ == e@),
                None => final(self).mode == old(self).mode,
            },
            (old(self).mode == Mode::Normal || (old(self).mode == Mode::Search && !old(self).search_input_mode))
                && key == Key::Char('r') ==> match old(self).selected() {
                Some(e) => e.kind == EntryKind::File ==> final(self).mode == Mode::Renaming && (
                final(self).operation_target_file matches Some(t) && t@ == e@) && final(self).filename_input@
                    == stem(e.name@),
                None => final(self).mode == old(self).mode,
            },
            (old(self).mode == Mode::Normal || old(self).mode == Mode::Search) && key == Key::Down ==> final(self).file_selection == next_spec(old(self).file_selection, old(self).active().len()),
            (old(self).mode == Mode::Normal || old(self).mode == Mode::Search) && key == Key::Up ==> final(self).file_selection == previous_spec(old(self).file_selection, old(self).active().len()),
            (old(self).mode == Mode::Normal || old(self).mode == Mode::Search) && key == Key::Left ==> match parent_of(
                old(self).root@,
            ) {
                Some(p) => final(self).root@ == p && (r.fetch matches Fetch::Walk { dir } && dir@ == p),
                None => final(self).root == old(self).root && r.fetch is Nothing,
            },
            (old(self).mode == Mode::Normal || old(self).mode == Mode::Search) && (key == Key::Right || key
                == Key::Enter) ==> match old(self).selected() {
                Some(e) => if e.kind == EntryKind::File {
                    r.fetch matches Fetch::OpenNote { path } && path@ == e.path@
                } else {
                    final(self).root@ == e.path@ && (r.fetch matches Fetch::Walk { dir } && dir@ == e.path@)
                },
                None => r.fetch is Nothing,
            },
            // Editing
            old(self).mode == Mode::Editing && key == Key::Esc ==> r.fetch is EditorText && final(self).pending is SaveEditor,
            old(self).mode == Mode::Editing && key == Key::Copy ==> r.fetch is EditorText && final(self).pending is CopyEditor,
            old(self).mode == Mode::Editing && key != Key::Esc && key != Key::Copy ==> r.fetch is EditorKey
                && final(self).mode == Mode::Editing,
            // Naming and Renaming
            old(self).mode == Mode::Naming && key == Key::Enter ==> final(self).filename_input@.len() == 0 && (old(self).filename_input@.len() == 0 ==> final(self).mode == Mode::Normal) && (old(self).filename_input@.len()
                > 0 ==> (final(self).pending matches Pending::Files(AfterListing::Created(p)) && p@ == joined(
                old(self).root@,
                note_name(old(self).filename_input@),
            ))),
            old(self).mode == Mode::Naming && key == Key::Esc ==> final(self).mode == Mode::Normal && final(self).filename_input@.len() == 0 && final(self).pending_template is None,
            old(self).mode == Mode::Renaming && key == Key::Enter ==> final(self).mode == Mode::Normal && final(self).operation_target_file is None && final(self).filename_input@.len() == 0 && match old(self).operation_target_file {
                Some(t) => joined(old(self).root@, note_name(old(self).filename_input@)) != t.path@ ==> (
                r.tasks@.len() == 1 && (r.tasks@[0] matches Task::RenameIfFree { from, to } && from@ == t.path@
                    && to@ == joined(old(self).root@, note_name(old(self).filename_input@)))),
                None => r.tasks@.len() == 0,
            },
            old(self).mode == Mode::Renaming && key == Key::Esc ==> final(self).mode == Mode::Normal && final(self).operation_target_file is None && final(self).filename_input@.len() == 0,
            (old(self).mode == Mode::Naming || old(self).mode == Mode::Renaming) && key is Char ==> final(self).mode
                == old(self).mode && final(self).filename_input@ == old(self).filename_input@.push(key->Char_0),
            (old(self).mode == Mode::Naming || old(self).mode == Mode::Renaming) && key == Key::Backspace ==> final(self).mode == old(self).mode && final(self).filename_input@ == (if old(self).filename_input@.len() == 0 {
                old(self).filename_input@
            } else {
                old(self).filename_input@.drop_last()
            }),
            // the directory browser
            (old(self).mode == Mode::ChangingDirectory || old(self).mode == Mode::SelectingTemplateFolder
                || old(self).mode == Mode::SelectingTemplate || old(self).mode == Mode::Settings) && key == Key::Esc
                ==> final(self).mode == Mode::Normal && r.tasks@.len() == 0 && r.fetch is Nothing,
            old(self).mode == Mode::ChangingDirectory && key == Key::Char('s') ==> final(self).mode == Mode::Normal
                && final(self).root == old(self).current_browser_path && r.tasks@.len() == 1 && (r.tasks@[0] matches Task::SaveConfig {
                text } && text@ == final(self).config_text()) && (r.fetch matches Fetch::Walk { dir } && dir@
                == old(self).current_browser_path@),
            old(self).mode == Mode::SelectingTemplateFolder && key == Key::Char('s') ==> final(self).template_root
                == Some(old(self).current_browser_path) && r.tasks@.len() == 1 && (r.tasks@[0] matches Task::SaveConfig {
                text } && text@ == final(self).config_text()) && (r.fetch matches Fetch::Walk { dir } && dir@
                == old(self).current_browser_path@),
            (old(self).mode == Mode::ChangingDirectory || old(self).mode == Mode::SelectingTemplateFolder) && key
                == Key::Enter ==> match old(self).browser_selection {
                Some(i) => r.fetch matches Fetch::Descend { path } && path@ == old(self).browser_entries@[i as int].path@,
                None => r.fetch is Nothing,
            },
            (old(self).mode == Mode::ChangingDirectory || old(self).mode == Mode::SelectingTemplateFolder) && key
                == Key::Down ==> final(self).browser_selection == next_spec(old(self).browser_selection, old(self).browser_entries@.len()),
            (old(self).mode == Mode::ChangingDirectory || old(self).mode == Mode::SelectingTemplateFolder) && key
                == Key::Up ==> final(self).browser_selection == previous_spec(old(self).browser_selection, old(self).browser_entries@.len()),
            // templates
            old(self).mode == Mode::SelectingTemplate && key == Key::Enter ==> match old(self).template_selection {
                Some(i) => final(self).mode == Mode::Naming && (final(self).pending_template matches Some(t) && t@
                    == old(self).template_files@[i as int].path@),
                None => final(self).mode == old(self).mode,
            },
            old(self).mode == Mode::SelectingTemplate && key == Key::Down ==> final(self).template_selection == next_spec(
                old(self).template_selection,
                old(self).template_files@.len(),
            ),
            old(self).mode == Mode::SelectingTemplate && key == Key::Up ==> final(self).template_selection
                == previous_spec(old(self).template_selection, old(self).template_files@.len()),
            // search
            old(self).mode == Mode::Search && old(self).search_input_mode && key is Char ==> final(self).mode
                == Mode::Search && final(self).search_input@ == old(self).search_input@.push(key->Char_0) && shows(views(old(self).files@), final(self).search_input@, views(final(self).filtered_files@)),
            old(self).mode == Mode::Search && old(self).search_input_mode && key == Key::Backspace ==> final(self).mode
                == Mode::Search && shows(views(old(self).files@), final(self).search_input@, views(final(self).filtered_files@)),
            old(self).mode == Mode::Search && old(self).search_input_mode && key == Key::Tab ==> final(self).mode
                == Mode::Search && !final(self).search_input_mode && shows(views(old(self).files@), old(self).search_input@, views(final(self).filtered_files@)),
            old(self).mode == Mode::Search && !old(self).search_input_mode && (key == Key::Char('/') || key == Key::Tab)
                ==> final(self).mode == Mode::Search && final(self).search_input_mode,
            // escape abandons what was begun, the chosen template included
            old(self).mode != Mode::Normal && key == Key::Esc ==> final(self).pending_template is None,
            // keys that the mode does not handle
            !handles(old(self).mode, old(self).search_input_mode, key) ==> *final(self) == *old(self) && r.tasks@.len()
                == 0 && r.fetch is Nothing,
            old(self).mode == Mode::Search && key == Key::Esc ==> final(self).mode == Mode::Normal && final(self).search_input@.len() == 0 && final(self).filtered_files@.len() == 0,
            // confirmations
            old(self).mode == Mode::ConfirmingDelete && (key == Key::Char('y') || key == Key::Char('Y') || key
                == Key::Enter) ==> final(self).mode == Mode::Normal && final(self).operation_target_file is None
                && match old(self).operation_target_file {
                Some(t) => r.tasks@.len() == 1 && (r.tasks@[0] matches Task::Remove { path } && path@ == t.path@) && (
                r.fetch matches Fetch::Walk { dir } && dir@ == old(self).root@),
                None => r.tasks@.len() == 0,
            },
            old(self).mode == Mode::ConfirmingDelete && (key == Key::Char('n') || key == Key::Char('N') || key
                == Key::Esc) ==> final(self).mode == Mode::Normal && final(self).operation_target_file is None
                && r.tasks@.len() == 0,
            old(self).mode == Mode::SelectingMoveDestination && key == Key::Esc ==> final(self).mode == Mode::Normal
                && final(self).operation_target_file is None && r.tasks@.len() == 0,
            old(self).mode == Mode::SelectingMoveDestination && key == Key::Enter ==> final(self).mode == Mode::Normal
                && final(self).operation_target_file is None && match (
                old(self).operation_target_file,
                old(self).move_selection,
            ) {
                (Some(t), Some(i)) => {
                    let dest = joined(old(self).root@, old(self).move_destinations@[i as int]@);
                    &&& r.tasks@.len() == 2
                    &&& r.tasks@[0] matches Task::CreateDirAll { path } && path@ == dest
                    &&& r.tasks@[1] matches Task::Move { from, to } && from@ == t.path@ && to@ == joined(dest, t.name@)
                },
                _ => r.tasks@.len() == 0,
            },
            old(self).mode == Mode::SelectingMoveDestination && key == Key::Down ==> final(self).move_selection
                == next_spec(old(self).move_selection, old(self).move_destinations@.len()),
            old(self).mode == Mode::SelectingMoveDestination && key == Key::Up ==> final(self).move_selection
                == previous_spec(old(self).move_selection, old(self).move_destinations@.len()),
            // settings
            old(self).mode == Mode::Settings && key == Key::Enter ==> final(self).mode == Mode::Normal && match old(self).settings_selection {
                Some(i) => final(self).color_scheme == schemes()[i as int] && r.tasks@.len() == 1 && (r.tasks@[0] matches Task::SaveConfig {
                    text } && text@ == final(self).config_text()),
                None => final(self).color_scheme == old(self).color_scheme,
            },
            old(self).mode == Mode::Settings && key == Key::Down ==> final(self).settings_selection == next_spec(
                old(self).settings_selection,
                n_schemes(),
            ),
            old(self).mode == Mode::Settings && key == Key::Up ==> final(self).settings_selection == previous_spec(
                old(self).settings_selection,
                n_schemes(),
            ),
    {
        let was_normal = self.mode == Mode::Normal;
        let r = self.dispatch_key(key);
        if key == Key::Esc && !was_normal {
            self.pending_template = None;
        }
        r
    }

    fn dispatch_key(&mut self, key: Key) -> (r: Request)
        requires
            old(self).wf(),
        ensures
            final(self).wf(),
            (r.fetch is Quit) <==> (old(self).mode == Mode::Normal && key == Key::Char('q')),
            // Normal
            old(self).mode == Mode::Normal && key == Key::Char('n') ==> final(self).mode == Mode::Naming
                && final(self).pending_template is None,
            old(self).mode == Mode::Normal && key == Key::Char('c') ==> (r.fetch matches Fetch::ReadDir { dir }
                && dir@ == old(self).root@) && final(self).pending == Pending::Browser(false),
            old(self).mode == Mode::Normal && key == Key::Char('T') ==> match old(self).template_root {
                Some(t) => r.fetch matches Fetch::Walk { dir } && dir@ == t@ && final(self).pending is Templates,
                None => r.fetch matches Fetch::ReadDir { dir } && dir@ == old(self).root@ && final(self).pending
                    == Pending::Browser(true),
            },
            old(self).mode == Mode::Normal && key == Key::Char('/') ==> final(self).mode == Mode::Search
                && final(self).search_input_mode && final(self).search_input@.len() == 0 && views(
                final(self).filtered_files@,
            ) == views(old(self).files@),
            old(self).mode == Mode::Normal && key == Key::Char('s') ==> final(self).mode == Mode::Settings
                && final(self).settings_selection == Some(scheme_index(old(self).color_scheme)),
            (old(self).mode == Mode::Normal || (old(self).mode == Mode::Search && !old(self).search_input_mode))
                && key == Key::Char('d') ==> match old(self).selected() {
                Some(e) => e.kind == EntryKind::File ==> final(self).mode == Mode::ConfirmingDelete && (
                final(self).operation_target_file matches Some(t) && t@ == e@),
                None => final(self).mode == old(self).mode,
            },
            (old(self).mode == Mode::Normal || (old(self).mode == Mode::Search && !old(self).search_input_mode))
                && key == Key::Char('m') ==> match old(self).selected() {
                Some(e) => e.kind == EntryKind::File ==> final(self).mode == Mode::SelectingMoveDestination && (
                final(self).operation_target_file matches Some(t) && t@ == e@),
                None => final(self).mode == old(self).mode,
            },
            (old(self).mode == Mode::Normal || (old(self).mode == Mode::Search && !old(self).search_input_mode))
                && key == Key::Char('r') ==> match old(self).selected() {
                Some(e) => e.kind == EntryKind::File ==> final(self).mode == Mode::Renaming && (
                final(self).operation_target_file matches Some(t) && t@ == e@) && final(self).filename_input@
                    == stem(e.name@),
                None => final(self).mode == old(self).mode,
            },
            (old(self).mode == Mode::Normal || old(self).mode == Mode::Search) && key == Key::Down ==> final(self).file_selection == next_spec(old(self).file_selection, old(self).active().len()),
            (old(self).mode == Mode::Normal || old(self).mode == Mode::Search) && key == Key::Up ==> final(self).file_selection == previous_spec(old(self).file_selection, old(self).active().len()),
            (old(self).mode == Mode::Normal || old(self).mode == Mode::Search) && key == Key::Left ==> match parent_of(
                old(self).root@,
            ) {
                Some(p) => final(self).root@ == p && (r.fetch matches Fetch::Walk { dir } && dir@ == p),
                None => final(self).root == old(self).root && r.fetch is Nothing,
            },
            (old(self).mode == Mode::Normal || old(self).mode == Mode::Search) && (key == Key::Right || key
                == Key::Enter) ==> match old(self).selected() {
                Some(e) => if e.kind == EntryKind::File {
                    r.fetch matches Fetch::OpenNote { path } && path@ == e.path@
                } else {
                    final(self).root@ == e.path@ && (r.fetch matches Fetch::Walk { dir } && dir@ == e.path@)
                },
                None => r.fetch is Nothing,
            },
            // Editing
            old(self).mode == Mode::Editing && key == Key::Esc ==> r.fetch is EditorText && final(self).pending is SaveEditor,
            old(self).mode == Mode::Editing && key == Key::Copy ==> r.fetch is EditorText && final(self).pending is CopyEditor,
            old(self).mode == Mode::Editing && key != Key::Esc && key != Key::Copy ==> r.fetch is EditorKey
                && final(self).mode == Mode::Editing,
            // Naming and Renaming
            old(self).mode == Mode::Naming && key == Key::Enter ==> final(self).filename_input@.len() == 0 && (old(self).filename_input@.len() == 0 ==> final(self).mode == Mode::Normal) && (old(self).filename_input@.len()
                > 0 ==> (final(self).pending matches Pending::Files(AfterListing::Created(p)) && p@ == joined(
                old(self).root@,
                note_name(old(self).filename_input@),
            ))),
            old(self).mode == Mode::Naming && key == Key::Esc ==> final(self).mode == Mode::Normal && final(self).filename_input@.len() == 0 && final(self).pending_template is None,
            old(self).mode == Mode::Renaming && key == Key::Enter ==> final(self).mode == Mode::Normal && final(self).operation_target_file is None && final(self).filename_input@.len() == 0 && match old(self).operation_target_file {
                Some(t) => joined(old(self).root@, note_name(old(self).filename_input@)) != t.path@ ==> (
                r.tasks@.len() == 1 && (r.tasks@[0] matches Task::RenameIfFree { from, to } && from@ == t.path@
                    && to@ == joined(old(self).root@, note_name(old(self).filename_input@)))),
                None => r.tasks@.len() == 0,
            },
            old(self).mode == Mode::Renaming && key == Key::Esc ==> final(self).mode == Mode::Normal && final(self).operation_target_file is None && final(self).filename_input@.len() == 0,
            (old(self).mode == Mode::Naming || old(self).mode == Mode::Renaming) && key is Char ==> final(self).mode
                == old(self).mode && final(self).filename_input@ == old(self).filename_input@.push(key->Char_0),
            (old(self).mode == Mode::Naming || old(self).mode == Mode::Renaming) && key == Key::Backspace ==> final(self).mode == old(self).mode && final(self).filename_input@ == (if old(self).filename_input@.len() == 0 {
                old(self).filename_input@
            } else {
                old(self).filename_input@.drop_last()
            }),
            // the directory browser
            (old(self).mode == Mode::ChangingDirectory || old(self).mode == Mode::SelectingTemplateFolder
                || old(self).mode == Mode::SelectingTemplate || old(self).mode == Mode::Settings) && key == Key::Esc
                ==> final(self).mode == Mode::Normal && r.tasks@.len() == 0 && r.fetch is Nothing,
            old(self).mode == Mode::ChangingDirectory && key == Key::Char('s') ==> final(self).mode == Mode::Normal
                && final(self).root == old(self).current_browser_path && r.tasks@.len() == 1 && (r.tasks@[0] matches Task::SaveConfig {
                text } && text@ == final(self).config_text()) && (r.fetch matches Fetch::Walk { dir } && dir@
                == old(self).current_browser_path@),
            old(self).mode == Mode::SelectingTemplateFolder && key == Key::Char('s') ==> final(self).template_root
                == Some(old(self).current_browser_path) && r.tasks@.len() == 1 && (r.tasks@[0] matches Task::SaveConfig {
                text } && text@ == final(self).config_text()) && (r.fetch matches Fetch::Walk { dir } && dir@
                == old(self).current_browser_path@),
            (old(self).mode == Mode::ChangingDirectory || old(self).mode == Mode::SelectingTemplateFolder) && key
                == Key::Enter ==> match old(self).browser_selection {
                Some(i) => r.fetch matches Fetch::Descend { path } && path@ == old(self).browser_entries@[i as int].path@,
                None => r.fetch is Nothing,
            },
            (old(self).mode == Mode::ChangingDirectory || old(self).mode == Mode::SelectingTemplateFolder) && key
                == Key::Down ==> final(self).browser_selection == next_spec(old(self).browser_selection, old(self).browser_entries@.len()),
            (old(self).mode == Mode::ChangingDirectory || old(self).mode == Mode::SelectingTemplateFolder) && key
                == Key::Up ==> final(self).browser_selection == previous_spec(old(self).browser_selection, old(self).browser_entries@.len()),
            // templates
            old(self).mode == Mode::SelectingTemplate && key == Key::Enter ==> match old(self).template_selection {
                Some(i) => final(self).mode == Mode::Naming && (final(self).pending_template matches Some(t) && t@
                    == old(self).template_files@[i as int].path@),
                None => final(self).mode == old(self).mode,
            },
            old(self).mode == Mode::SelectingTemplate && key == Key::Down ==> final(self).template_selection == next_spec(
                old(self).template_selection,
                old(self).template_files@.len(),
            ),
            old(self).mode == Mode::SelectingTemplate && key == Key::Up ==> final(self).template_selection
                == previous_spec(old(self).template_selection, old(self).template_files@.len()),
            // search
            old(self).mode == Mode::Search && old(self).search_input_mode && key is Char ==> final(self).mode
                == Mode::Search && final(self).search_input@ == old(self).search_input@.push(key->Char_0) && shows(views(old(self).files@), final(self).search_input@, views(final(self).filtered_files@)),
            old(self).mode == Mode::Search && old(self).search_input_mode && key == Key::Backspace ==> final(self).mode
                == Mode::Search && shows(views(old(self).files@), final(self).search_input@, views(final(self).filtered_files@)),
            old(self).mode == Mode::Search && old(self).search_input_mode && key == Key::Tab ==> final(self).mode
                == Mode::Search && !final(self).search_input_mode && shows(views(old(self).files@), old(self).search_input@, views(final(self).filtered_files@)),
            old(self).mode == Mode::Search && !old(self).search_input_mode && (key == Key::Char('/') || key == Key::Tab)
                ==> final(self).mode == Mode::Search && final(self).search_input_mode,
            // keys that the mode does not handle
            !handles(old(self).mode, old(self).search_input_mode, key) ==> *final(self) == *old(self) && r.tasks@.len()
                == 0 && r.fetch is Nothing,
            old(self).mode == Mode::Search && key == Key::Esc ==> final(self).mode == Mode::Normal && final(self).search_input@.len() == 0 && final(self).filtered_files@.len() == 0,
            // confirmations
            old(self).mode == Mode::ConfirmingDelete && (key == Key::Char('y') || key == Key::Char('Y') || key
                == Key::Enter) ==> final(self).mode == Mode::Normal && final(self).operation_target_file is None
                && match old(self).operation_target_file {
                Some(t) => r.tasks@.len() == 1 && (r.tasks@[0] matches Task::Remove { path } && path@ == t.path@) && (
                r.fetch matches Fetch::Walk { dir } && dir@ == old(self).root@),
                None => r.tasks@.len() == 0,
            },
            old(self).mode == Mode::ConfirmingDelete && (key == Key::Char('n') || key == Key::Char('N') || key
                == Key::Esc) ==> final(self).mode == Mode::Normal && final(self).operation_target_file is None
                && r.tasks@.len() == 0,
            old(self).mode == Mode::SelectingMoveDestination && key == Key::Esc ==> final(self).mode == Mode::Normal
                && final(self).operation_target_file is None && r.tasks@.len() == 0,
            old(self).mode == Mode::SelectingMoveDestination && key == Key::Enter ==> final(self).mode == Mode::Normal
                && final(self).operation_target_file is None && match (
                old(self).operation_target_file,
                old(self).move_selection,
            ) {
                (Some(t), Some(i)) => {
                    let dest = joined(old(self).root@, old(self).move_destinations@[i as int]@);
                    &&& r.tasks@.len() == 2
                    &&& r.tasks@[0] matches Task::CreateDirAll { path } && path@ == dest
                    &&& r.tasks@[1] matches Task::Move { from, to } && from@ == t.path@ && to@ == joined(dest, t.name@)
                },
                _ => r.tasks@.len() == 0,
            },
            old(self).mode == Mode::SelectingMoveDestination && key == Key::Down ==> final(self).move_selection
                == next_spec(old(self).move_selection, old(self).move_destinations@.len()),
            old(self).mode == Mode::SelectingMoveDestination && key == Key::Up ==> final(self).move_selection
                == previous_spec(old(self).move_selection, old(self).move_destinations@.len()),
            // settings
            old(self).mode == Mode::Settings && key == Key::Enter ==> final(self).mode == Mode::Normal && match old(self).settings_selection {
                Some(i) => final(self).color_scheme == schemes()[i as int] && r.tasks@.len() == 1 && (r.tasks@[0] matches Task::SaveConfig {
                    text } && text@ == final(self).config_text()),
                None => final(self).color_scheme == old(self).color_scheme,
            },
            old(self).mode == Mode::Settings && key == Key::Down ==> final(self).settings_selection == next_spec(
                old(self).settings_selection,
                n_schemes(),
            ),
            old(self).mode == Mode::Settings && key == Key::Up ==> final(self).settings_selection == previous_spec(
                old(self).settings_selection,
                n_schemes(),
            ),
    {
        match self.mode {
            Mode::Normal => match key {
                Key::Char('q') => fetch_only(Fetch::Quit),
                Key::Char('n') => {
                    self.pending_template = None;
                    self.mode = Mode::Naming;
                    nothing()
                },
                Key::Char('c') => self.enter_directory_browser(false),
                Key::Char('T') => self.start_template_workflow(),
                Key::Char('/') => {
                    self.enter_search_mode();
                    nothing()
                },
                Key::Char('s') => {
                    self.enter_settings();
                    nothing()
                },
                Key::Char('d') => {
                    self.start_delete_confirmation();
                    nothing()
                },
                Key::Char('m') => {
                    self.start_move_selection();
                    nothing()
                },
                Key::Char('r') => {
                    self.start_rename();
                    nothing()
                },
                Key::Down => {
                    self.select_next();
                    nothing()
                },
                Key::Up => {
                    self.select_previous();
                    nothing()
                },
                Key::Left => self.navigate_up_directory(),
                Key::Right | Key::Enter => self.start_editing(),
                _ => nothing(),
            },
            Mode::Editing => match key {
                Key::Esc => self.stop_editing(),
                Key::Copy => self.copy_file_to_clipboard(),
                _ => fetch_only(Fetch::EditorKey),
            },
            Mode::Naming => match key {
                Key::Enter => self.create_new_note(),
                Key::Esc => {
                    clear_text(&mut self.filename_input);
                    self.pending_template = None;
                    self.mode = Mode::Normal;
                    nothing()
                },
                Key::Char(c) => {
                    push_char(&mut self.filename_input, c);
                    nothing()
                },
                Key::Backspace => {
                    pop_char(&mut self.filename_input);
                    nothing()
                },
                _ => nothing(),
            },
            Mode::Renaming => match key {
                Key::Enter => self.execute_rename(),
                Key::Esc => {
                    self.cancel_rename();
                    nothing()
                },
                Key::Char(c) => {
                    push_char(&mut self.filename_input, c);
                    nothing()
                },
                Key::Backspace => {
                    pop_char(&mut self.filename_input);
                    nothing()
                },
                _ => nothing(),
            },
            Mode::ChangingDirectory | Mode::SelectingTemplateFolder => match key {
                Key::Esc => {
                    self.mode = Mode::Normal;
                    nothing()
                },
                Key::Char('s') => if self.mode == Mode::ChangingDirectory {
                    self.set_new_root()
                } else {
                    self.set_template_root()
                },
                Key::Enter => self.select_browser_entry(),
                Key::Down => {
                    self.select_next();
                    nothing()
                },
                Key::Up => {
                    self.select_previous();
                    nothing()
                },
                _ => nothing(),
            },
            Mode::SelectingTemplate => match key {
                Key::Esc => {
                    self.mode = Mode::Normal;
                    nothing()
                },
                Key::Enter => {
                    self.select_template();
                    nothing()
                },
                Key::Down => {
                    self.select_next();
                    nothing()
                },
                Key::Up => {
                    self.select_previous();
                    nothing()
                },
                _ => nothing(),
            },
            Mode::Search => {
                if self.search_input_mode {
                    match key {
                        Key::Char(c) => {
                            self.search_type(c);
                            nothing()
                        },
                        Key::Backspace => {
                            self.search_erase();
                            nothing()
                        },
                        Key::Tab => {
                            self.toggle_search_mode();
                            nothing()
                        },
                        Key::Esc => {
                            self.exit_search_mode();
                            nothing()
                        },
                        Key::Down => {
                            self.select_next();
                            nothing()
                        },
                        Key::Up => {
                            self.select_previous();
                            nothing()
                        },
                        Key::Left => self.navigate_up_directory(),
                        Key::Right | Key::Enter => self.start_editing(),
                        _ => nothing(),
                    }
                } else {
                    match key {
                        Key::Char('/') | Key::Tab => {
                            self.toggle_search_mode();
                            nothing()
                        },
                        Key::Char('d') => {
                            self.start_delete_confirmation();
                            nothing()
                        },
                        Key::Char('m') => {
                            self.start_move_selection();
                            nothing()
                        },
                        Key::Char('r') => {
                            self.start_rename();
                            nothing()
                        },
                        Key::Esc => {
                            self.exit_search_mode();
                            nothing()
                        },
                        Key::Down => {
                            self.select_next();
                            nothing()
                        },
                        Key::Up => {
                            self.select_previous();
                            nothing()
                        },
                        Key::Left => self.navigate_up_directory(),
                        Key::Right | Key::Enter => self.start_editing(),
                        _ => nothing(),
                    }
                }
            },
            Mode::ConfirmingDelete => match key {
                Key::Char('y') | Key::Char('Y') | Key::Enter => self.confirm_delete(),
                Key::Char('n') | Key::Char('N') | Key::Esc => {
                    self.cancel_operation();
                    nothing()
                },
                _ => nothing(),
            },
            Mode::SelectingMoveDestination => match key {
                Key::Esc => {
                    self.cancel_operation();
                    nothing()
                },
                Key::Enter => self.execute_move(),
                Key::Down => {
                    self.move_selection_next();
                    nothing()
                },
                Key::Up => {
                    self.move_selection_previous();
                    nothing()
                },
                _ => nothing(),
            },
            Mode::Settings => match key {
                Key::Enter => {
                    let r = self.apply_color_scheme();
                    self.mode = Mode::Normal;
                    r
                },
                Key::Esc => {
                    self.exit_settings();
                    nothing()
                },
                Key::Down => {
                    self.settings_next();
                    nothing()
                },
                Key::Up => {
                    self.settings_previous();
                    nothing()
                },
                _ => nothing(),
            },
        }
    }
}

/// The position of the entry whose path is `path`, if there is one.
fn position_of(files: &Vec<DirEntry>, path: &String) -> (r: Option<usize>)
    ensures
        r matches Some(i) ==> i < files@.len() && files@[i as int].path@ == path@,
        r is None ==> forall|i: int| 0 <= i < files@.len() ==> #[trigger] files@[i].path@ != path@,
{
    let mut i: usize = 0;
    while i < files.len()
        invariant
            i <= files@.len(),
            forall|j: int| 0 <= j < i ==> #[trigger] files@[j].path@ != path@,
        decreases files.len() - i,
    {
        if files[i].path == *path {
            return Some(i);
        }
        i = i + 1;
    }
    None
}

} // verus!
