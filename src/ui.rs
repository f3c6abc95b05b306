//! The renderer: draws the launcher's state into a terminal's output queue.
use vstd::prelude::*;

use crate::app::{App, InputMode, Mode};
use crate::discovery::{file_name_of, path_file_name};
use crate::terminal::{move_code, Terminal};
use crate::text::{repeat_char, repeated};
use crate::theme::{plain_style, styled_text, RosePineMoon, Style, HIDE_CURSOR, RESET, SHOW_CURSOR};

verus! {

/// First column of the content.
pub const COL_CONTENT_START: u16 = 2;

/// Row of the query.
pub const ROW_INPUT: u16 = 1;

/// First row of the result list.
pub const ROW_RESULTS_START: u16 = 3;

/// Most list items prepared for one frame.
pub const MAX_ITEMS: u16 = 50;

/// The parent of a path as `std::path::Path::parent` gives it; `None` for a
/// root or an empty path.
pub uninterp spec fn path_parent(p: Seq<char>) -> Option<Seq<char>>;

/// Relies on `std::path::Path::parent`: the path without its final component.
#[verifier::external_body]
fn parent_part(p: &str) -> (r: Option<String>)
    ensures
        r matches Some(n) ==> Some(n@) == path_parent(p@),
        r is None ==> path_parent(p@) is None,
{
    std::path::Path::new(p).parent().map(|s| s.to_string_lossy().to_string())
}

/// One line of the result list before layout.
pub struct ListItem {
    /// A glyph before the text; empty for none.
    pub icon: String,
    /// The main text.
    pub text: String,
    /// Secondary text after it, such as a parent directory; empty for none.
    pub aux: String,
    pub is_selected: bool,
    pub is_tui: bool,
}

/// The glyph that marks a terminal application.
pub open spec fn tui_icon() -> Seq<char> {
    seq!['\u{e795}']
}

/// Where the main text of an item starts, for an icon of `icon_len` characters.
pub open spec fn text_column(icon_len: nat) -> int {
    COL_CONTENT_START + 2 + if icon_len > 0 {
        icon_len + 1
    } else {
        0
    }
}

/// Rows that an item takes in a list `width` columns wide: two when its
/// secondary text does not fit after the main text.
pub open spec fn item_height(width: u16, icon: Seq<char>, text: Seq<char>, aux: Seq<char>) -> u16 {
    if aux.len() == 0 {
        1
    } else {
        let x = text_column(icon.len()) + text.len() + 1;
        let available = if width - x - 1 > 0 {
            width - x - 1
        } else {
            0
        };
        if aux.len() <= available {
            1
        } else {
            2
        }
    }
}

/// The window of at most `max` positions that keeps `selected` in view.
pub open spec fn window_start(selected: usize, max: u16) -> int {
    if selected >= max {
        selected - max + 1
    } else {
        0
    }
}

/// The border's vertical sides on rows `1..n+1`, each side at column 0 and `w - 1`.
pub open spec fn border_sides(w: u16, n: nat, side: Style) -> Seq<char>
    decreases n,
{
    if n == 0 {
        Seq::empty()
    } else {
        border_sides(w, (n - 1) as nat, side) + move_code(0, n as u16) + styled_text(side, "│"@)
            + move_code((w - 1) as u16, n as u16) + styled_text(side, "│"@)
    }
}

/// The border of a `w` by `h` screen.
pub open spec fn border(w: u16, h: u16) -> Seq<char> {
    let st = plain_style().fg_set(crate::theme::Color { r: 68, g: 65, b: 90 });
    move_code(0, 0) + styled_text(st, "╭"@) + move_code((w - 1) as u16, 0) + styled_text(st, "╮"@)
        + move_code(0, (h - 1) as u16) + styled_text(st, "╰"@) + move_code(
        (w - 1) as u16,
        (h - 1) as u16,
    ) + styled_text(st, "╯"@) + if w > 2 {
        move_code(1, 0) + styled_text(st, repeat_char('─', (w - 2) as nat)) + move_code(
            1,
            (h - 1) as u16,
        ) + styled_text(st, repeat_char('─', (w - 2) as nat))
    } else {
        Seq::empty()
    } + if h > 2 {
        border_sides(w, (h - 2) as nat, st)
    } else {
        Seq::empty()
    }
}

/// Draws the launcher into a terminal.
pub struct Ui {
    term: Terminal,
    width: u16,
    height: u16,
    tui_cache: Vec<(String, bool)>,
}

impl Ui {
    pub closed spec fn wf(&self) -> bool {
        self.term.cols() == self.width && self.term.rows() == self.height
    }

    /// Columns.
    pub closed spec fn cols(&self) -> u16 {
        self.width
    }

    /// Rows.
    pub closed spec fn rows(&self) -> u16 {
        self.height
    }

    /// The terminal output queued so far.
    pub closed spec fn pending(&self) -> Seq<char> {
        self.term.pending()
    }

    /// The terminal flags remembered for this frame, by name.
    pub closed spec fn tui_flags(&self) -> Seq<(String, bool)> {
        self.tui_cache@
    }

    /// A renderer for a `width` by `height` terminal, with its setup queued.
    pub fn new(width: u16, height: u16) -> (u: Ui)
        ensures
            u.wf(),
            u.cols() == width,
            u.rows() == height,
            u.tui_flags().len() == 0,
    {
        let term = Terminal::new(width, height);
        let (w, h) = term.size();
        Ui { term, width: w, height: h, tui_cache: Vec::new() }
    }

    /// Draws a frame of `app` and hands over the output to write to the terminal.
    pub fn render(&mut self, app: &App) -> (r: String)
        requires
            old(self).wf(),
            app.wf(),
        ensures
            final(self).wf(),
            final(self).cols() == old(self).cols(),
            final(self).rows() == old(self).rows(),
            final(self).pending().len() == 0,
    {
        self.refresh_tui_cache(app);
        self.term.clear();
        self.draw_border();
        self.draw_input_row(app);
        self.draw_results(app);
        if app.input_mode == InputMode::Insert {
            let x = self.calculate_cursor_x(app);
            self.term.write(SHOW_CURSOR);
            self.term.move_to(x, ROW_INPUT);
            self.term.write(RESET);
        } else {
            self.term.write(HIDE_CURSOR);
        }
        self.term.flush()
    }

    /// Queues showing the cursor and clearing the screen, as on leaving, and
    /// hands over everything queued.
    pub fn cleanup(&mut self) -> (r: String)
        requires
            old(self).wf(),
        ensures
            final(self).wf(),
            r@ == old(self).pending() + crate::terminal::show_code() + crate::terminal::clear_all_code(),
    {
        self.term.cleanup();
        self.term.flush()
    }

    /// Remembers, for each application shown, whether it runs in a terminal: the
    /// store's flag where it has a record, else whether it came from the search
    /// path.
    fn refresh_tui_cache(&mut self, app: &App)
        requires
            old(self).wf(),
            app.wf(),
        ensures
            final(self).wf(),
            final(self).cols() == old(self).cols(),
            final(self).rows() == old(self).rows(),
            final(self).pending() == old(self).pending(),
            app.mode == Mode::Apps ==> final(self).tui_flags().len() == app.filtered_apps@.len(),
            forall|i: int|
                0 <= i < final(self).tui_flags().len() ==> {
                    let e = app.filtered_apps@[i];
                    &&& (#[trigger] final(self).tui_flags()[i]).0@ == e.name@
                    &&& final(self).tui_flags()[i].1 == if app.prefs@.contains_key(e.name@) {
                        app.prefs@[e.name@].is_tui
                    } else {
                        e.is_cli_only
                    }
                },
    {
        self.tui_cache = Vec::new();
        if app.mode == Mode::Apps {
            let mut i: usize = 0;
            while i < app.filtered_apps.len()
                invariant
                    i <= app.filtered_apps@.len(),
                    app.wf(),
                    self.wf(),
                    self.width == old(self).width,
                    self.height == old(self).height,
                    self.term.pending() == old(self).term.pending(),
                    self.tui_cache@.len() == i,
                    forall|j: int|
                        0 <= j < i ==> {
                            let e = app.filtered_apps@[j];
                            &&& (#[trigger] self.tui_cache@[j]).0@ == e.name@
                            &&& self.tui_cache@[j].1 == if app.prefs@.contains_key(e.name@) {
                                app.prefs@[e.name@].is_tui
                            } else {
                                e.is_cli_only
                            }
                        },
                decreases app.filtered_apps@.len() - i,
            {
                let e = &app.filtered_apps[i];
                let is_tui = if app.prefs.has_entry(e.name.as_str()) {
                    app.prefs.is_tui(e.name.as_str())
                } else {
                    e.is_cli_only
                };
                self.tui_cache.push((e.name.clone(), is_tui));
                i = i + 1;
            }
        }
    }

    /// Whether the application `name` is marked as a terminal application in
    /// this frame; false for a name not shown.
    pub fn get_tui_status(&self, name: &str) -> (r: bool)
        ensures
            r == exists|i: int|
                0 <= i < self.tui_flags().len() && (#[trigger] self.tui_flags()[i]).0@ == name@
                    && self.tui_flags()[i].1 && forall|j: int|
                    0 <= j < i ==> (#[trigger] self.tui_flags()[j]).0@ != name@,
    {
        let key = String::from_str(name);
        let mut i: usize = 0;
        while i < self.tui_cache.len()
            invariant
                i <= self.tui_cache@.len(),
                key@ == name@,
                forall|j: int| 0 <= j < i ==> (#[trigger] self.tui_cache@[j]).0@ != name@,
            decreases self.tui_cache@.len() - i,
        {
            if self.tui_cache[i].0 == key {
                let r = self.tui_cache[i].1;
                assert(self.tui_flags()[i as int].0@ == name@);
                assert forall|t: int|
                    0 <= t < self.tui_flags().len() && (#[trigger] self.tui_flags()[t]).0@ == name@
                        && forall|j: int| 0 <= j < t ==> (#[trigger] self.tui_flags()[j]).0@ != name@ implies t
                    == i by {
                    if t > i {
                        assert(self.tui_flags()[i as int].0@ == name@);
                    }
                }
                return r;
            }
            i = i + 1;
        }
        false
    }

    /// Draws the rounded border around the screen.
    #[verifier::rlimit(50)]
    fn draw_border(&mut self)
        requires
            old(self).wf(),
        ensures
            final(self).wf(),
            final(self).cols() == old(self).cols(),
            final(self).rows() == old(self).rows(),
            old(self).cols() > 0 && old(self).rows() > 0 ==> final(self).pending() == old(
                self,
            ).pending() + border(old(self).cols(), old(self).rows()),
            old(self).cols() == 0 || old(self).rows() == 0 ==> final(self).pending() == old(
                self,
            ).pending(),
    {
        let w = self.width;
        let h = self.height;
        if w == 0 || h == 0 {
            return;
        }
        let color = RosePineMoon::highlight_med();
        let st = Style::new().fg(color);
        self.term.write_styled(0, 0, "╭", &st);
        self.term.write_styled(w - 1, 0, "╮", &st);
        self.term.write_styled(0, h - 1, "╰", &st);
        self.term.write_styled(w - 1, h - 1, "╯", &st);
        let ghost corners = self.term.pending();
        assert(corners =~= old(self).term.pending() + (move_code(0, 0) + styled_text(st, "╭"@)
            + move_code((w - 1) as u16, 0) + styled_text(st, "╮"@) + move_code(0, (h - 1) as u16)
            + styled_text(st, "╰"@) + move_code((w - 1) as u16, (h - 1) as u16) + styled_text(
            st,
            "╯"@,
        )));
        if w > 2 {
            self.term.hline(1, 0, w - 2, '─', color);
            self.term.hline(1, h - 1, w - 2, '─', color);
        }
        let ghost lines = self.term.pending();
        assert(lines =~= corners + if w > 2 {
            move_code(1, 0) + styled_text(st, repeat_char('─', (w - 2) as nat)) + move_code(
                1,
                (h - 1) as u16,
            ) + styled_text(st, repeat_char('─', (w - 2) as nat))
        } else {
            Seq::empty()
        });
        if h > 2 {
            let mut y: u16 = 1;
            while y < h - 1
                invariant
                    1 <= y <= h - 1,
                    h == self.height,
                    w == self.width,
                    w > 0,
                    self.wf(),
                    st == plain_style().fg_set(crate::theme::Color { r: 68, g: 65, b: 90 }),
                    self.term.pending() == lines + border_sides(w, (y - 1) as nat, st),
                decreases h - 1 - y,
            {
                self.term.write_styled(0, y, "│", &st);
                self.term.write_styled(w - 1, y, "│", &st);
                y = y + 1;
                assert(self.term.pending() =~= lines + border_sides(w, (y - 1) as nat, st));
            }
        }
        assert(self.term.pending() =~= lines + if h > 2 {
            border_sides(w, (h - 2) as nat, st)
        } else {
            Seq::empty()
        });
        assert(self.term.pending() =~= old(self).term.pending() + border(w, h));
    }

    fn draw_input_row(&mut self, app: &App)
        requires
            old(self).wf(),
        ensures
            final(self).wf(),
            final(self).cols() == old(self).cols(),
            final(self).rows() == old(self).rows(),
    {
        let (prompt, color, len) = match app.mode {
            Mode::Apps => ("Apps > ", RosePineMoon::love(), 7u16),
            Mode::Files => ("Files > ", RosePineMoon::gold(), 8u16),
        };
        let p = Style::new().fg(color).bold().apply(prompt);
        self.term.write_at(COL_CONTENT_START, ROW_INPUT, p.as_str());
        let x = COL_CONTENT_START + len;
        let input_style = if app.input_mode == InputMode::Insert {
            Style::new().fg(RosePineMoon::text())
        } else {
            Style::new().fg(RosePineMoon::subtle())
        };
        let s = input_style.apply(app.input.as_str());
        self.term.write_at(x, ROW_INPUT, s.as_str());
    }

    /// The column of the cursor in the query row.
    fn calculate_cursor_x(&self, app: &App) -> (r: u16)
        ensures
            r == if COL_CONTENT_START as int + (if app.mode == Mode::Apps {
                7int
            } else {
                8int
            }) + app.cursor_pos < u16::MAX as int {
                (COL_CONTENT_START as int + (if app.mode == Mode::Apps {
                    7int
                } else {
                    8int
                }) + app.cursor_pos) as u16
            } else {
                (u16::MAX - 1) as u16
            },
    {
        let prompt_len: u16 = match app.mode {
            Mode::Apps => 7,
            Mode::Files => 8,
        };
        let x = COL_CONTENT_START + prompt_len;
        if app.cursor_pos < (u16::MAX - x) as usize {
            x + app.cursor_pos as u16
        } else {
            u16::MAX - 1
        }
    }

    /// Rows that an item takes.
    fn measure_item_height(&self, icon: &str, text: &str, aux: &str) -> (r: u16)
        ensures
            r == item_height(self.width, icon@, text@, aux@),
    {
        if aux.is_empty() {
            return 1;
        }
        let icon_len = icon.unicode_len();
        let text_len = text.unicode_len();
        let mut x: usize = (COL_CONTENT_START + 2) as usize;
        if icon_len > 0 {
            if icon_len >= usize::MAX - x - 1 {
                return 2;
            }
            x = x + icon_len + 1;
        }
        if text_len >= usize::MAX - x - 1 {
            return 2;
        }
        x = x + text_len + 1;
        let w = self.width as usize;
        let available: usize = if w > x + 1 {
            w - x - 1
        } else {
            0
        };
        if aux.unicode_len() <= available {
            1
        } else {
            2
        }
    }

    /// The items of the shown applications in the window that keeps the
    /// selection in view.
    fn prepare_app_items(&self, app: &App, max: u16) -> (r: Vec<ListItem>)
        requires
            max > 0,
        ensures
            r@.len() == crate::search::min(
                max as int,
                app.filtered_apps@.len() - window_start(app.selected_index, max),
            ) || (r@.len() == 0 && app.filtered_apps@.len() <= window_start(app.selected_index, max)),
            forall|k: int|
                0 <= k < r@.len() ==> {
                    let i = window_start(app.selected_index, max) + k;
                    &&& (#[trigger] r@[k]).text@ == app.filtered_apps@[i].name@
                    &&& r@[k].aux@.len() == 0
                    &&& r@[k].is_selected == (i == app.selected_index)
                    &&& r@[k].icon@ == if r@[k].is_tui {
                        tui_icon()
                    } else {
                        Seq::empty()
                    }
                },
    {
        let start: usize = if app.selected_index >= max as usize {
            app.selected_index - max as usize + 1
        } else {
            0
        };
        let mut r: Vec<ListItem> = Vec::new();
        let mut i = start;
        while i < app.filtered_apps.len() && i - start < max as usize
            invariant
                start == window_start(app.selected_index, max),
                start <= i,
                i - start <= max,
                i <= app.filtered_apps@.len() || i == start,
                max > 0,
                r@.len() == i - start,
                forall|k: int|
                    0 <= k < r@.len() ==> {
                        let j = start + k;
                        &&& (#[trigger] r@[k]).text@ == app.filtered_apps@[j].name@
                        &&& r@[k].aux@.len() == 0
                        &&& r@[k].is_selected == (j == app.selected_index)
                        &&& r@[k].icon@ == if r@[k].is_tui {
                            tui_icon()
                        } else {
                            Seq::empty()
                        }
                    },
            decreases app.filtered_apps@.len() - i,
        {
            let e = &app.filtered_apps[i];
            let is_tui = self.get_tui_status(e.name.as_str());
            let icon = if is_tui {
                proof {
                    reveal_strlit("\u{e795}");
                }
                String::from_str("\u{e795}")
            } else {
                String::new()
            };
            r.push(
                ListItem {
                    icon,
                    text: e.name.clone(),
                    aux: String::new(),
                    is_selected: i == app.selected_index,
                    is_tui,
                },
            );
            i = i + 1;
        }
        r
    }

    /// The items of the found files in the window that keeps the selection in
    /// view: the file name, then the directory.
    fn prepare_file_items(&self, app: &App, max: u16) -> (r: Vec<ListItem>)
        requires
            max > 0,
        ensures
            forall|k: int|
                0 <= k < r@.len() ==> {
                    let i = window_start(app.selected_index, max) + k;
                    let p = app.filtered_files@[i]@;
                    &&& i < app.filtered_files@.len()
                    &&& (#[trigger] r@[k]).text@ == match path_file_name(p) {
                        Some(n) => n,
                        None => p,
                    }
                    &&& r@[k].aux@ == match path_parent(p) {
                        Some(d) => d,
                        None => Seq::empty(),
                    }
                    &&& r@[k].is_selected == (i == app.selected_index)
                    &&& r@[k].icon@.len() == 0
                    &&& !r@[k].is_tui
                },
            r@.len() <= max,
    {
        let start: usize = if app.selected_index >= max as usize {
            app.selected_index - max as usize + 1
        } else {
            0
        };
        let mut r: Vec<ListItem> = Vec::new();
        let mut i = start;
        while i < app.filtered_files.len() && i - start < max as usize
            invariant
                start == window_start(app.selected_index, max),
                start <= i,
                i - start <= max,
                i <= app.filtered_files@.len() || i == start,
                r@.len() == i - start,
                forall|k: int|
                    0 <= k < r@.len() ==> {
                        let j = start + k;
                        let p = app.filtered_files@[j]@;
                        &&& j < app.filtered_files@.len()
                        &&& (#[trigger] r@[k]).text@ == match path_file_name(p) {
                            Some(n) => n,
                            None => p,
                        }
                        &&& r@[k].aux@ == match path_parent(p) {
                            Some(d) => d,
                            None => Seq::empty(),
                        }
                        &&& r@[k].is_selected == (j == app.selected_index)
                        &&& r@[k].icon@.len() == 0
                        &&& !r@[k].is_tui
                    },
            decreases app.filtered_files@.len() - i,
        {
            let p = &app.filtered_files[i];
            let name = match file_name_of(p.as_str()) {
                Some(n) => n,
                None => p.clone(),
            };
            let parent = match parent_part(p.as_str()) {
                Some(d) => d,
                None => String::new(),
            };
            r.push(
                ListItem {
                    icon: String::new(),
                    text: name,
                    aux: parent,
                    is_selected: i == app.selected_index,
                    is_tui: false,
                },
            );
            i = i + 1;
        }
        r
    }

    /// Lays out and draws the result list below the query.
    fn draw_results(&mut self, app: &App)
        requires
            old(self).wf(),
        ensures
            final(self).wf(),
            final(self).cols() == old(self).cols(),
            final(self).rows() == old(self).rows(),
    {
        let max_row = self.height.saturating_sub(1);
        let list_height = max_row.saturating_sub(ROW_RESULTS_START);
        let items = match app.mode {
            Mode::Apps => self.prepare_app_items(app, MAX_ITEMS),
            Mode::Files => self.prepare_file_items(app, MAX_ITEMS),
        };
        let mut start_index = app.selected_index;
        let mut view_height: u16 = 0;
        let mut i = app.selected_index;
        loop
            invariant
                view_height <= list_height,
            decreases i,
        {
            if i < items.len() {
                let it = &items[i];
                let h = self.measure_item_height(it.icon.as_str(), it.text.as_str(), it.aux.as_str());
                if h > list_height - view_height {
                    break;
                }
                view_height = view_height + h;
                start_index = i;
            }
            if i == 0 {
                break;
            }
            i = i - 1;
        }
        let mut row = ROW_RESULTS_START;
        let mut k = start_index;
        while k < items.len() && row < max_row
            invariant
                self.wf(),
                self.width == old(self).width,
                self.height == old(self).height,
                max_row < u16::MAX || self.height == 0,
                max_row == self.height.saturating_sub(1),
            decreases items@.len() - k,
        {
            let it = &items[k];
            self.draw_item(it, row, max_row);
            row = self.next_row(it, row, max_row);
            k = k + 1;
        }
        while row < max_row
            invariant
                self.wf(),
                self.width == old(self).width,
                self.height == old(self).height,
            decreases max_row - row,
        {
            let spaces = repeated(' ', self.width.saturating_sub(2) as usize);
            self.term.write_at(1, row, spaces.as_str());
            row = row + 1;
        }
    }

    /// The column after the icon and the main text of an item.
    fn aux_column(&self, it: &ListItem) -> (x: u16) {
        let mut x: u16 = COL_CONTENT_START + 2;
        let icon_len = it.icon.as_str().unicode_len();
        if icon_len > 0 {
            x = advance(x, icon_len);
        }
        advance(x, it.text.as_str().unicode_len())
    }

    /// The row below an item drawn at `row`.
    fn next_row(&self, it: &ListItem, row: u16, max_row: u16) -> (r: u16)
        requires
            row < max_row,
        ensures
            row < r <= row + 2,
    {
        if it.aux.as_str().is_empty() {
            return row + 1;
        }
        let x = self.aux_column(it);
        let available = self.width.saturating_sub(x).saturating_sub(1) as usize;
        if it.aux.as_str().unicode_len() <= available || row + 1 >= max_row {
            row + 1
        } else {
            row + 2
        }
    }

    /// Draws one item at `row`: the selection mark, the icon, the text, and the
    /// secondary text, on a second row when it does not fit.
    fn draw_item(&mut self, it: &ListItem, row: u16, max_row: u16)
        requires
            old(self).wf(),
            row < max_row,
        ensures
            final(self).wf(),
            final(self).cols() == old(self).cols(),
            final(self).rows() == old(self).rows(),
    {
        let indicator = if it.is_selected {
            "> "
        } else {
            "  "
        };
        let ind_style = if it.is_selected {
            Style::new().fg(RosePineMoon::love()).bold()
        } else {
            Style::new()
        };
        let s = ind_style.apply(indicator);
        self.term.write_at(COL_CONTENT_START, row, s.as_str());
        let mut x: u16 = COL_CONTENT_START + 2;
        let icon_len = it.icon.as_str().unicode_len();
        if icon_len > 0 {
            let icon_color = if it.is_tui {
                RosePineMoon::pine()
            } else {
                RosePineMoon::subtle()
            };
            let s = Style::new().fg(icon_color).apply(it.icon.as_str());
            self.term.write_at(x, row, s.as_str());
            x = advance(x, icon_len);
        }
        let name_style = if it.is_selected {
            Style::new().fg(RosePineMoon::text()).bold()
        } else {
            Style::new().fg(RosePineMoon::subtle())
        };
        let s = name_style.apply(it.text.as_str());
        self.term.write_at(x, row, s.as_str());
        x = advance(x, it.text.as_str().unicode_len());
        let aux = it.aux.as_str();
        if aux.is_empty() {
            return;
        }
        let path_style = Style::new().fg(RosePineMoon::muted());
        let available = self.width.saturating_sub(x).saturating_sub(1) as usize;
        let n = aux.unicode_len();
        if n <= available {
            let s = path_style.apply(aux);
            self.term.write_at(x, row, s.as_str());
            return;
        }
        let split = match last_slash(aux, available) {
            Some(p) => p,
            None => available,
        };
        let s = path_style.apply(aux.substring_char(0, split));
        self.term.write_at(x, row, s.as_str());
        if row + 1 < max_row {
            let rest = aux.substring_char(split, n);
            let avail2 = self.width.saturating_sub(x).saturating_sub(1) as usize;
            let shown = if rest.unicode_len() > avail2 {
                let cut = avail2.saturating_sub(3);
                let mut t = String::from_str(rest.substring_char(0, cut));
                t.append("...");
                t
            } else {
                rest.to_string()
            };
            let s = path_style.apply(shown.as_str());
            self.term.write_at(x, row + 1, s.as_str());
        }
    }
}

/// The column after `n` characters and a space from column `x`, kept below the
/// largest `u16` so that the cursor can still be moved there.
fn advance(x: u16, n: usize) -> (r: u16)
    ensures
        r < u16::MAX,
        r as int == crate::search::min(x as int + n as int + 1, u16::MAX as int - 1),
{
    let r = x.saturating_add(clamp_u16(n)).saturating_add(1);
    if r == u16::MAX {
        u16::MAX - 1
    } else {
        r
    }
}

/// `n` as a column count, at most the largest `u16`.
fn clamp_u16(n: usize) -> (r: u16)
    ensures
        r == if n < u16::MAX as usize {
            n as u16
        } else {
            u16::MAX
        },
{
    if n < u16::MAX as usize {
        n as u16
    } else {
        u16::MAX
    }
}

/// The position of the last `/` among the first `limit` characters of `s`.
pub fn last_slash(s: &str, limit: usize) -> (r: Option<usize>)
    requires
        limit <= s@.len(),
    ensures
        match r {
            Some(p) => p < limit && s@[p as int] == '/' && forall|j: int|
                p < j < limit ==> s@[j] != '/',
            None => forall|j: int| 0 <= j < limit ==> s@[j] != '/',
        },
{
    let mut i = limit;
    while i > 0
        invariant
            i <= limit,
            limit <= s@.len(),
            forall|j: int| i <= j < limit ==> s@[j] != '/',
        decreases i,
    {
        if s.get_char(i - 1) == '/' {
            return Some(i - 1);
        }
        i = i - 1;
    }
    None
}

} // verus!
