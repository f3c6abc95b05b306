//! The launcher's state: the query being typed, the mode, the selection, the
//! ranked results, and the effects that the surrounding program must carry out.
use vstd::prelude::*;

use crate::entries::{AppEntry, AppIdentity};
use crate::launch::{app_launch, app_launch_spec, file_launch, launch_view, LaunchCommand};
use crate::prefs::{launched, lookup_in, PrefRecord, PrefStore};
use crate::search::{app_view, search_apps};

verus! {

/// Most results that a file query returns.
pub const FILE_RESULT_LIMIT: usize = 50;

/// What the launcher searches.
#[derive(Debug, Clone, Copy, PartialEq, Eq, Structural)]
pub enum Mode {
    Apps,
    Files,
}

/// Whether keys edit the query or navigate.
#[derive(Debug, Clone, Copy, PartialEq, Eq, Structural)]
pub enum InputMode {
    Normal,
    Insert,
}

/// A change of the durable preference store, made in memory already, that
/// the surrounding program writes through to storage.
pub enum StoreOp {
    /// A launch of the named entity at the given time.
    RecordLaunch(String, u64),
    /// The terminal flag of the named entity.
    SetTui(String, bool),
}

/// The launcher's state.
pub struct App {
    /// The query text.
    pub input: String,
    pub input_mode: InputMode,
    /// Cursor position in the query, in characters.
    pub cursor_pos: usize,
    pub mode: Mode,
    pub selected_index: usize,
    pub show_dormant: bool,
    /// Every discovered entity, ranked.
    pub all_apps: Vec<AppEntry>,
    /// What the application pipeline shows for the query.
    pub filtered_apps: Vec<AppEntry>,
    /// What the last file search returned.
    pub filtered_files: Vec<String>,
    /// A file search that the surrounding program must run for this query.
    pub file_query: Option<String>,
    /// The preference store as this session knows it.
    pub prefs: PrefStore,
    /// Store changes not yet written through.
    pub store_ops: Vec<StoreOp>,
    pub should_quit: bool,
    pub should_launch: bool,
    pub launch_command: Option<LaunchCommand>,
}

impl App {
    /// How many results the current mode shows.
    pub open spec fn result_count_spec(&self) -> nat {
        match self.mode {
            Mode::Apps => self.filtered_apps@.len(),
            Mode::Files => self.filtered_files@.len(),
        }
    }

    /// The cursor lies within the query, the selection within the results, and
    /// the store is well formed.
    pub open spec fn wf(&self) -> bool {
        &&& self.cursor_pos <= self.input@.len()
        &&& self.selected_index == 0 || self.selected_index < self.result_count_spec()
        &&& self.prefs.wf()
    }

    /// The state after `search` in the application mode: the shown list.
    pub open spec fn apps_shown(&self) -> Seq<AppEntry> {
        app_view(self.all_apps@, self.input@, self.show_dormant)
    }

    /// A launcher over the ranked `apps`, with an empty query in insert mode.
    pub fn new(apps: Vec<AppEntry>, prefs: PrefStore) -> (a: App)
        requires
            prefs.wf(),
        ensures
            a.wf(),
            a.input@.len() == 0,
            a.input_mode == InputMode::Insert,
            a.mode == Mode::Apps,
            a.all_apps@ == apps@,
            a.filtered_apps@ == a.apps_shown(),
            a.selected_index == 0,
            !a.show_dormant,
            !a.should_quit && !a.should_launch,
    {
        let input = String::new();
        let filtered = search_apps(input.as_str(), &apps, false);
        App {
            input,
            input_mode: InputMode::Insert,
            cursor_pos: 0,
            mode: Mode::Apps,
            selected_index: 0,
            show_dormant: false,
            all_apps: apps,
            filtered_apps: filtered,
            filtered_files: Vec::new(),
            file_query: None,
            prefs,
            store_ops: Vec::new(),
            should_quit: false,
            should_launch: false,
            launch_command: None,
        }
    }

    /// Number of results the current mode shows.
    pub fn result_count(&self) -> (r: usize)
        ensures
            r == self.result_count_spec(),
    {
        match self.mode {
            Mode::Apps => self.filtered_apps.len(),
            Mode::Files => self.filtered_files.len(),
        }
    }

    /// `b` differs from `a` at most in the query, the cursor, the modes, the
    /// selection and the results: the entities, the store, the pending store
    /// changes and the launch state are as they were.
    pub open spec fn same_data(a: App, b: App) -> bool {
        &&& b.all_apps == a.all_apps
        &&& b.prefs == a.prefs
        &&& b.store_ops == a.store_ops
        &&& b.should_quit == a.should_quit
        &&& b.should_launch == a.should_launch
        &&& b.launch_command == a.launch_command
    }

    /// `b` holds the results for its own query, mode and dormancy setting, with
    /// the first selected: the application pipeline's list in application mode;
    /// in file mode no result for an empty query, else a file search asked for.
    /// `before` is the file results and search request that were there before.
    pub open spec fn refreshed(before: App, b: App) -> bool {
        &&& b.selected_index == 0
        &&& b.mode == Mode::Apps ==> b.filtered_apps@ == b.apps_shown() && b.file_query
            == before.file_query && b.filtered_files == before.filtered_files
        &&& b.mode == Mode::Files ==> b.filtered_apps == before.filtered_apps && (if b.input@.len()
            == 0 {
            b.filtered_files@.len() == 0 && b.file_query is None
        } else {
            b.file_query matches Some(q) && q@ == b.input@ && b.filtered_files
                == before.filtered_files
        })
    }

    /// `b` is `a` with the query `input`, the cursor at `cursor`, and the
    /// results searched again.
    pub open spec fn edited(a: App, b: App, input: Seq<char>, cursor: int) -> bool {
        &&& b.input@ == input
        &&& b.cursor_pos == cursor
        &&& b.mode == a.mode
        &&& b.input_mode == a.input_mode
        &&& b.show_dormant == a.show_dormant
        &&& App::same_data(a, b)
        &&& App::refreshed(a, b)
    }

    /// What `next` does: the following result is selected, after the last the first.
    pub open spec fn next_post(a: App, b: App) -> bool {
        if a.result_count_spec() > 0 {
            b == App {
                selected_index: ((a.selected_index + 1) % (a.result_count_spec() as int)) as usize,
                ..a
            }
        } else {
            b == a
        }
    }

    /// What `previous` does: the preceding result is selected, before the first the last.
    pub open spec fn previous_post(a: App, b: App) -> bool {
        if a.result_count_spec() > 0 {
            b == App {
                selected_index: if a.selected_index == 0 {
                    (a.result_count_spec() - 1) as usize
                } else {
                    (a.selected_index - 1) as usize
                },
                ..a
            }
        } else {
            b == a
        }
    }

    /// What `go_bottom` does: the last result is selected.
    pub open spec fn go_bottom_post(a: App, b: App) -> bool {
        if a.result_count_spec() > 0 {
            b == App { selected_index: (a.result_count_spec() - 1) as usize, ..a }
        } else {
            b == a
        }
    }

    /// What `toggle_mode` does: the other mode, searched again.
    pub open spec fn toggle_mode_post(a: App, b: App) -> bool {
        &&& b.mode == match a.mode {
            Mode::Apps => Mode::Files,
            Mode::Files => Mode::Apps,
        }
        &&& b.input == a.input
        &&& b.cursor_pos == a.cursor_pos
        &&& b.input_mode == a.input_mode
        &&& b.show_dormant == a.show_dormant
        &&& App::same_data(a, b)
        &&& App::refreshed(a, b)
    }

    /// What `toggle_dormant` does: dormant entries shown or hidden, searched again.
    pub open spec fn toggle_dormant_post(a: App, b: App) -> bool {
        &&& b.show_dormant == !a.show_dormant
        &&& b.mode == a.mode
        &&& b.input == a.input
        &&& b.cursor_pos == a.cursor_pos
        &&& b.input_mode == a.input_mode
        &&& App::same_data(a, b)
        &&& App::refreshed(a, b)
    }

    /// What `insert_char` does.
    pub open spec fn insert_post(a: App, b: App, c: char) -> bool {
        if a.input@.len() < usize::MAX {
            App::edited(a, b, a.input@.insert(a.cursor_pos as int, c), a.cursor_pos + 1)
        } else {
            b == a
        }
    }

    /// What `backspace` does.
    pub open spec fn backspace_post(a: App, b: App) -> bool {
        if a.cursor_pos > 0 {
            App::edited(a, b, a.input@.remove(a.cursor_pos - 1), a.cursor_pos - 1)
        } else {
            b == a
        }
    }

    /// What `delete_char` does.
    pub open spec fn delete_post(a: App, b: App) -> bool {
        if a.cursor_pos < a.input@.len() {
            App::edited(a, b, a.input@.remove(a.cursor_pos as int), a.cursor_pos as int)
        } else {
            b == a
        }
    }

    /// What `toggle_tui_preference` does; `r` is what it returns.
    pub open spec fn toggle_tui_post(a: App, b: App, r: bool) -> bool {
        &&& r == (a.mode == Mode::Apps && a.filtered_apps@.len() > 0)
        &&& r ==> {
            let name = a.filtered_apps@[a.selected_index as int].name;
            let rec = lookup_in(a.prefs@, name@);
            &&& b.prefs@ == a.prefs@.insert(name@, PrefRecord { is_tui: !rec.is_tui, ..rec })
            &&& b.store_ops@ == a.store_ops@.push(StoreOp::SetTui(name, !rec.is_tui))
            &&& b == App { prefs: b.prefs, store_ops: b.store_ops, ..a }
        }
        &&& !r ==> b == a
    }

    /// What `launch_selection` at time `now` does.
    pub open spec fn launch_post(a: App, b: App, now: u64) -> bool {
        &&& a.mode == Mode::Apps && a.filtered_apps@.len() > 0 ==> {
            let e = a.filtered_apps@[a.selected_index as int];
            let rec = lookup_in(a.prefs@, e.name@);
            &&& b.prefs@ == a.prefs@.insert(e.name@, launched(rec, now))
            &&& b.store_ops@ == a.store_ops@.push(StoreOp::RecordLaunch(e.name, now))
            &&& match app_launch_spec(e.command@, launched(rec, now).is_tui) {
                Some(l) => b.should_launch && (b.launch_command matches Some(c) && launch_view(c)
                    == l),
                None => b.should_launch == a.should_launch && b.launch_command == a.launch_command,
            }
            &&& b == App {
                prefs: b.prefs,
                store_ops: b.store_ops,
                should_launch: b.should_launch,
                launch_command: b.launch_command,
                ..a
            }
        }
        &&& a.mode == Mode::Files && a.filtered_files@.len() > 0 ==> {
            &&& b.should_launch
            &&& (b.launch_command matches Some(c) && c.program@ == "kitty"@
                && crate::launch::texts(c.args@) == seq![
                "-e"@,
                "nvim"@,
                a.filtered_files@[a.selected_index as int]@,
            ] && !c.needs_terminal)
            &&& b == App { should_launch: b.should_launch, launch_command: b.launch_command, ..a }
        }
        &&& a.result_count_spec() == 0 ==> b == a
    }

    /// Recomputes the results for the query and resets the selection. In the
    /// application mode the pipeline runs at once; in the file mode an empty
    /// query clears the results and a non-empty one asks for a file search.
    pub fn update_search(&mut self)
        requires
            old(self).prefs.wf(),
            old(self).cursor_pos <= old(self).input@.len(),
        ensures
            final(self).wf(),
            App::edited(*old(self), *final(self), old(self).input@, old(self).cursor_pos as int),
            final(self).input == old(self).input,
    {
        self.selected_index = 0;
        match self.mode {
            Mode::Apps => {
                self.filtered_apps = search_apps(self.input.as_str(), &self.all_apps, self.show_dormant);
            },
            Mode::Files => {
                if self.input.as_str().is_empty() {
                    self.filtered_files = Vec::new();
                    self.file_query = None;
                } else {
                    self.file_query = Some(self.input.clone());
                }
            },
        }
    }

    /// Takes the results of the file search that was asked for.
    pub fn set_file_results(&mut self, files: Vec<String>)
        requires
            old(self).wf(),
        ensures
            final(self).wf(),
            *final(self) == (App {
                filtered_files: files,
                file_query: None,
                selected_index: 0,
                ..*old(self)
            }),
    {
        self.filtered_files = files;
        self.file_query = None;
        self.selected_index = 0;
    }

    fn replace_input(&mut self, s: String, cursor: usize)
        requires
            old(self).prefs.wf(),
            cursor <= s@.len(),
        ensures
            final(self).wf(),
            final(self).input == s,
            App::edited(*old(self), *final(self), s@, cursor as int),
    {
        self.input = s;
        self.cursor_pos = cursor;
        self.update_search();
    }

    /// Inserts `c` at the cursor and moves the cursor past it. A query as long
    /// as a position can count is left as it is.
    pub fn insert_char(&mut self, c: char)
        requires
            old(self).wf(),
        ensures
            final(self).wf(),
            App::insert_post(*old(self), *final(self), c),
    {
        let n = self.input.as_str().unicode_len();
        if n == usize::MAX {
            return;
        }
        let k = self.cursor_pos;
        let mut s = String::new();
        s.append(self.input.as_str().substring_char(0, k));
        crate::text::push_char(&mut s, c);
        s.append(self.input.as_str().substring_char(k, n));
        assert(s@ =~= old(self).input@.insert(k as int, c));
        self.replace_input(s, k + 1);
    }

    fn remove_at(&mut self, k: usize, cursor: usize)
        requires
            old(self).prefs.wf(),
            k < old(self).input@.len(),
            cursor <= k,
        ensures
            final(self).wf(),
            App::edited(*old(self), *final(self), old(self).input@.remove(k as int), cursor as int),
    {
        let n = self.input.as_str().unicode_len();
        let mut s = String::new();
        s.append(self.input.as_str().substring_char(0, k));
        s.append(self.input.as_str().substring_char(k + 1, n));
        assert(s@ =~= old(self).input@.remove(k as int));
        self.replace_input(s, cursor);
    }

    /// Deletes the character before the cursor, if any.
    pub fn backspace(&mut self)
        requires
            old(self).wf(),
        ensures
            final(self).wf(),
            App::backspace_post(*old(self), *final(self)),
    {
        if self.cursor_pos > 0 {
            let k = self.cursor_pos - 1;
            self.remove_at(k, k);
        }
    }

    /// Deletes the character under the cursor, if any.
    pub fn delete_char(&mut self)
        requires
            old(self).wf(),
        ensures
            final(self).wf(),
            App::delete_post(*old(self), *final(self)),
    {
        if self.cursor_pos < self.input.as_str().unicode_len() {
            let k = self.cursor_pos;
            self.remove_at(k, k);
        }
    }

    /// Moves the cursor one character left, if it can.
    pub fn move_cursor_left(&mut self)
        requires
            old(self).wf(),
        ensures
            final(self).wf(),
            *final(self) == (App {
                cursor_pos: if old(self).cursor_pos > 0 {
                    (old(self).cursor_pos - 1) as usize
                } else {
                    0
                },
                ..*old(self)
            }),
    {
        if self.cursor_pos > 0 {
            self.cursor_pos = self.cursor_pos - 1;
        }
    }

    /// Moves the cursor one character right, if it can.
    pub fn move_cursor_right(&mut self)
        requires
            old(self).wf(),
        ensures
            final(self).wf(),
            *final(self) == (App {
                cursor_pos: if old(self).cursor_pos < old(self).input@.len() {
                    (old(self).cursor_pos + 1) as usize
                } else {
                    old(self).cursor_pos
                },
                ..*old(self)
            }),
    {
        if self.cursor_pos < self.input.as_str().unicode_len() {
            self.cursor_pos = self.cursor_pos + 1;
        }
    }

    /// Moves the cursor to the start of the query.
    pub fn move_cursor_start(&mut self)
        requires
            old(self).wf(),
        ensures
            final(self).wf(),
            *final(self) == (App { cursor_pos: 0, ..*old(self) }),
    {
        self.cursor_pos = 0;
    }

    /// Moves the cursor to the end of the query.
    pub fn move_cursor_end(&mut self)
        requires
            old(self).wf(),
        ensures
            final(self).wf(),
            *final(self) == (App { cursor_pos: old(self).input@.len() as usize, ..*old(self) }),
    {
        self.cursor_pos = self.input.as_str().unicode_len();
    }

    /// Empties the query and searches again.
    pub fn clear_input(&mut self)
        requires
            old(self).wf(),
        ensures
            final(self).wf(),
            App::edited(*old(self), *final(self), Seq::empty(), 0),
    {
        self.replace_input(String::new(), 0);
    }

    pub fn enter_normal_mode(&mut self)
        requires
            old(self).wf(),
        ensures
            final(self).wf(),
            *final(self) == (App { input_mode: InputMode::Normal, ..*old(self) }),
    {
        self.input_mode = InputMode::Normal;
    }

    pub fn enter_insert_mode(&mut self)
        requires
            old(self).wf(),
        ensures
            final(self).wf(),
            *final(self) == (App { input_mode: InputMode::Insert, ..*old(self) }),
    {
        self.input_mode = InputMode::Insert;
    }

    /// Switches between normal and insert mode.
    pub fn toggle_input_mode(&mut self)
        requires
            old(self).wf(),
        ensures
            final(self).wf(),
            *final(self) == (App {
                input_mode: match old(self).input_mode {
                    InputMode::Normal => InputMode::Insert,
                    InputMode::Insert => InputMode::Normal,
                },
                ..*old(self)
            }),
    {
        self.input_mode = match self.input_mode {
            InputMode::Normal => InputMode::Insert,
            InputMode::Insert => InputMode::Normal,
        };
    }

    /// Switches between searching applications and files, and searches again.
    pub fn toggle_mode(&mut self)
        requires
            old(self).wf(),
        ensures
            final(self).wf(),
            App::toggle_mode_post(*old(self), *final(self)),
    {
        self.mode = match self.mode {
            Mode::Apps => Mode::Files,
            Mode::Files => Mode::Apps,
        };
        self.selected_index = 0;
        self.update_search();
    }

    /// Shows or hides dormant entries, and searches again.
    pub fn toggle_dormant(&mut self)
        requires
            old(self).wf(),
        ensures
            final(self).wf(),
            App::toggle_dormant_post(*old(self), *final(self)),
    {
        self.show_dormant = !self.show_dormant;
        self.update_search();
    }

    /// Selects the next result, wrapping to the first.
    pub fn next(&mut self)
        requires
            old(self).wf(),
        ensures
            final(self).wf(),
            App::next_post(*old(self), *final(self)),
    {
        let count = self.result_count();
        if count > 0 {
            self.selected_index = (self.selected_index + 1) % count;
        }
    }

    /// Selects the previous result, wrapping to the last.
    pub fn previous(&mut self)
        requires
            old(self).wf(),
        ensures
            final(self).wf(),
            App::previous_post(*old(self), *final(self)),
    {
        let count = self.result_count();
        if count > 0 {
            self.selected_index = if self.selected_index == 0 {
                count - 1
            } else {
                self.selected_index - 1
            };
        }
    }

    /// Selects the first result.
    pub fn go_top(&mut self)
        requires
            old(self).wf(),
        ensures
            final(self).wf(),
            *final(self) == (App { selected_index: 0, ..*old(self) }),
    {
        self.selected_index = 0;
    }

    /// Selects the last result.
    pub fn go_bottom(&mut self)
        requires
            old(self).wf(),
        ensures
            final(self).wf(),
            App::go_bottom_post(*old(self), *final(self)),
    {
        let count = self.result_count();
        if count > 0 {
            self.selected_index = count - 1;
        }
    }

    /// Flips the terminal flag of the selected application. Returns whether
    /// there was one.
    pub fn toggle_tui_preference(&mut self) -> (r: bool)
        requires
            old(self).wf(),
        ensures
            final(self).wf(),
            App::toggle_tui_post(*old(self), *final(self), r),
    {
        if let Mode::Apps = self.mode {
            if self.filtered_apps.len() == 0 {
                return false;
            }
            let name = self.filtered_apps[self.selected_index].name.clone();
            let current = self.prefs.is_tui(name.as_str());
            self.prefs.set_tui(name.as_str(), !current);
            self.store_ops.push(StoreOp::SetTui(name, !current));
            return true;
        }
        false
    }

    /// Prepares to launch the selection at time `now`. For an application this
    /// records the launch in the store and derives the launch intent from its
    /// command; for a file, it opens the file in the editor.
    pub fn launch_selection(&mut self, now: u64)
        requires
            old(self).wf(),
        ensures
            final(self).wf(),
            App::launch_post(*old(self), *final(self), now),
    {
        match self.mode {
            Mode::Apps => {
                if self.filtered_apps.len() == 0 {
                    return;
                }
                let name = self.filtered_apps[self.selected_index].name.clone();
                let command = self.filtered_apps[self.selected_index].command.clone();
                let is_cli_only = self.filtered_apps[self.selected_index].is_cli_only;
                self.prefs.record_launch(name.as_str(), now);
                self.store_ops.push(StoreOp::RecordLaunch(name.clone(), now));
                let is_tui = if self.prefs.has_entry(name.as_str()) {
                    self.prefs.is_tui(name.as_str())
                } else {
                    is_cli_only
                };
                match app_launch(command.as_str(), is_tui) {
                    Some(l) => {
                        self.launch_command = Some(l);
                        self.should_launch = true;
                    },
                    None => {},
                }
            },
            Mode::Files => {
                if self.filtered_files.len() == 0 {
                    return;
                }
                let path = self.filtered_files[self.selected_index].clone();
                self.launch_command = Some(file_launch(path.as_str()));
                self.should_launch = true;
            },
        }
    }

    /// Asks to leave.
    pub fn quit(&mut self)
        requires
            old(self).wf(),
        ensures
            final(self).wf(),
            *final(self) == (App { should_quit: true, ..*old(self) }),
    {
        self.should_quit = true;
    }
}

} // verus!
