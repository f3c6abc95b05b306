//! Key handling: which action a key stands for in each input mode, and its
//! effect on the launcher's state.
use vstd::prelude::*;

use crate::app::{App, InputMode, Mode};

verus! {

/// A key, as the terminal reports it.
#[derive(Debug, Clone, Copy, PartialEq, Eq, Structural)]
pub enum KeyCode {
    Char(char),
    Esc,
    Enter,
    Tab,
    Backspace,
    Delete,
    Up,
    Down,
    Left,
    Right,
    Home,
    End,
    Other,
}

/// A key press and whether the control modifier was held.
#[derive(Debug, Clone, Copy, PartialEq, Eq, Structural)]
pub struct KeyEvent {
    pub code: KeyCode,
    pub ctrl: bool,
}

/// What a key asks of the launcher.
#[derive(Debug, Clone, Copy, PartialEq, Eq, Structural)]
pub enum Action {
    EnterNormal,
    EnterInsert,
    Next,
    Previous,
    CursorLeft,
    CursorRight,
    CursorStart,
    CursorEnd,
    Launch,
    ToggleMode,
    ToggleTui,
    ToggleDormant,
    ClearInput,
    Insert(char),
    Backspace,
    Delete,
    GoTop,
    GoBottom,
    Quit,
    Nothing,
}

/// The key is `code`, or the character `c`, with control held.
pub open spec fn ctrl_key(k: KeyEvent, code: KeyCode, c: char) -> bool {
    k.ctrl && (k.code == code || k.code == KeyCode::Char(c))
}

/// The action of a key while the query is edited.
pub open spec fn insert_action(k: KeyEvent) -> Action {
    if k.code == KeyCode::Esc {
        Action::EnterNormal
    } else if ctrl_key(k, KeyCode::Down, 'n') {
        Action::Next
    } else if ctrl_key(k, KeyCode::Up, 'p') {
        Action::Previous
    } else if ctrl_key(k, KeyCode::Left, 'b') {
        Action::CursorLeft
    } else if ctrl_key(k, KeyCode::Right, 'f') {
        Action::CursorRight
    } else if ctrl_key(k, KeyCode::Home, 'a') {
        Action::CursorStart
    } else if ctrl_key(k, KeyCode::End, 'e') {
        Action::CursorEnd
    } else if k.code == KeyCode::Enter {
        Action::Launch
    } else if k.code == KeyCode::Tab {
        Action::ToggleMode
    } else if k.ctrl && k.code == KeyCode::Char('t') {
        Action::ToggleTui
    } else if k.ctrl && k.code == KeyCode::Char('h') {
        Action::ToggleDormant
    } else if k.ctrl && k.code == KeyCode::Char('u') {
        Action::ClearInput
    } else if k.code == KeyCode::Backspace {
        Action::Backspace
    } else if k.code == KeyCode::Delete {
        Action::Delete
    } else {
        match k.code {
            KeyCode::Char(c) => Action::Insert(c),
            _ => Action::Nothing,
        }
    }
}

/// The action of a key while navigating.
pub open spec fn normal_action(k: KeyEvent) -> Action {
    if k.code == KeyCode::Char('i') || k.code == KeyCode::Char('a') {
        Action::EnterInsert
    } else if k.code == KeyCode::Char('q') || k.code == KeyCode::Esc {
        Action::Quit
    } else if k.code == KeyCode::Char('j') || k.code == KeyCode::Down {
        Action::Next
    } else if k.code == KeyCode::Char('k') || k.code == KeyCode::Up {
        Action::Previous
    } else if k.code == KeyCode::Char('g') {
        Action::GoTop
    } else if k.code == KeyCode::Char('G') {
        Action::GoBottom
    } else if k.code == KeyCode::Enter {
        Action::Launch
    } else if k.code == KeyCode::Tab {
        Action::ToggleMode
    } else if k.ctrl && k.code == KeyCode::Char('t') {
        Action::ToggleTui
    } else if k.code == KeyCode::Char('h') || k.code == KeyCode::Char('H') {
        Action::ToggleDormant
    } else {
        Action::Nothing
    }
}

/// The action of a key in the given input mode.
pub open spec fn action_of(mode: InputMode, k: KeyEvent) -> Action {
    match mode {
        InputMode::Insert => insert_action(k),
        InputMode::Normal => normal_action(k),
    }
}

/// Turns keys into actions on the launcher.
pub struct InputHandler;

fn is_char(k: KeyEvent, c: char) -> (r: bool)
    ensures
        r == (k.code == KeyCode::Char(c)),
{
    match k.code {
        KeyCode::Char(d) => d == c,
        _ => false,
    }
}

fn ctrl_key_exec(k: KeyEvent, code: KeyCode, c: char) -> (r: bool)
    ensures
        r == ctrl_key(k, code, c),
{
    k.ctrl && (k.code == code || is_char(k, c))
}

impl InputHandler {
    pub fn new() -> Self {
        InputHandler
    }

    fn process_insert_mode(&self, k: KeyEvent) -> (r: Action)
        ensures
            r == insert_action(k),
    {
        if k.code == KeyCode::Esc {
            Action::EnterNormal
        } else if ctrl_key_exec(k, KeyCode::Down, 'n') {
            Action::Next
        } else if ctrl_key_exec(k, KeyCode::Up, 'p') {
            Action::Previous
        } else if ctrl_key_exec(k, KeyCode::Left, 'b') {
            Action::CursorLeft
        } else if ctrl_key_exec(k, KeyCode::Right, 'f') {
            Action::CursorRight
        } else if ctrl_key_exec(k, KeyCode::Home, 'a') {
            Action::CursorStart
        } else if ctrl_key_exec(k, KeyCode::End, 'e') {
            Action::CursorEnd
        } else if k.code == KeyCode::Enter {
            Action::Launch
        } else if k.code == KeyCode::Tab {
            Action::ToggleMode
        } else if k.ctrl && is_char(k, 't') {
            Action::ToggleTui
        } else if k.ctrl && is_char(k, 'h') {
            Action::ToggleDormant
        } else if k.ctrl && is_char(k, 'u') {
            Action::ClearInput
        } else if k.code == KeyCode::Backspace {
            Action::Backspace
        } else if k.code == KeyCode::Delete {
            Action::Delete
        } else {
            match k.code {
                KeyCode::Char(c) => Action::Insert(c),
                _ => Action::Nothing,
            }
        }
    }

    fn process_normal_mode(&self, k: KeyEvent) -> (r: Action)
        ensures
            r == normal_action(k),
    {
        if is_char(k, 'i') || is_char(k, 'a') {
            Action::EnterInsert
        } else if is_char(k, 'q') || k.code == KeyCode::Esc {
            Action::Quit
        } else if is_char(k, 'j') || k.code == KeyCode::Down {
            Action::Next
        } else if is_char(k, 'k') || k.code == KeyCode::Up {
            Action::Previous
        } else if is_char(k, 'g') {
            Action::GoTop
        } else if is_char(k, 'G') {
            Action::GoBottom
        } else if k.code == KeyCode::Enter {
            Action::Launch
        } else if k.code == KeyCode::Tab {
            Action::ToggleMode
        } else if k.ctrl && is_char(k, 't') {
            Action::ToggleTui
        } else if is_char(k, 'h') || is_char(k, 'H') {
            Action::ToggleDormant
        } else {
            Action::Nothing
        }
    }

    /// The action that `k` stands for in input mode `mode`.
    pub fn action(&self, mode: InputMode, k: KeyEvent) -> (r: Action)
        ensures
            r == action_of(mode, k),
    {
        match mode {
            InputMode::Insert => self.process_insert_mode(k),
            InputMode::Normal => self.process_normal_mode(k),
        }
    }

    /// Carries out the action that `k` stands for on `app`; `now` is the time
    /// that a launch is recorded at. Returns the action.
    pub fn process(&self, app: &mut App, k: KeyEvent, now: u64) -> (r: Action)
        requires
            old(app).wf(),
        ensures
            final(app).wf(),
            r == action_of(old(app).input_mode, k),
            match r {
                Action::EnterNormal => *final(app) == (App {
                    input_mode: InputMode::Normal,
                    ..*old(app)
                }),
                Action::EnterInsert => *final(app) == (App {
                    input_mode: InputMode::Insert,
                    ..*old(app)
                }),
                Action::Next => App::next_post(*old(app), *final(app)),
                Action::Previous => App::previous_post(*old(app), *final(app)),
                Action::CursorLeft => *final(app) == (App {
                    cursor_pos: if old(app).cursor_pos > 0 {
                        (old(app).cursor_pos - 1) as usize
                    } else {
                        0
                    },
                    ..*old(app)
                }),
                Action::CursorRight => *final(app) == (App {
                    cursor_pos: if old(app).cursor_pos < old(app).input@.len() {
                        (old(app).cursor_pos + 1) as usize
                    } else {
                        old(app).cursor_pos
                    },
                    ..*old(app)
                }),
                Action::CursorStart => *final(app) == (App { cursor_pos: 0, ..*old(app) }),
                Action::CursorEnd => *final(app) == (App {
                    cursor_pos: old(app).input@.len() as usize,
                    ..*old(app)
                }),
                Action::Launch => App::launch_post(*old(app), *final(app), now),
                Action::ToggleMode => App::toggle_mode_post(*old(app), *final(app)),
                Action::ToggleTui => App::toggle_tui_post(
                    *old(app),
                    *final(app),
                    old(app).mode == Mode::Apps && old(app).filtered_apps@.len() > 0,
                ),
                Action::ToggleDormant => App::toggle_dormant_post(*old(app), *final(app)),
                Action::ClearInput => App::edited(*old(app), *final(app), Seq::empty(), 0),
                Action::Insert(c) => App::insert_post(*old(app), *final(app), c),
                Action::Backspace => App::backspace_post(*old(app), *final(app)),
                Action::Delete => App::delete_post(*old(app), *final(app)),
                Action::GoTop => *final(app) == (App { selected_index: 0, ..*old(app) }),
                Action::GoBottom => App::go_bottom_post(*old(app), *final(app)),
                Action::Quit => *final(app) == (App { should_quit: true, ..*old(app) }),
                Action::Nothing => *final(app) == *old(app),
            },
    {
        let a = self.action(app.input_mode, k);
        match a {
            Action::EnterNormal => app.enter_normal_mode(),
            Action::EnterInsert => app.enter_insert_mode(),
            Action::Next => app.next(),
            Action::Previous => app.previous(),
            Action::CursorLeft => app.move_cursor_left(),
            Action::CursorRight => app.move_cursor_right(),
            Action::CursorStart => app.move_cursor_start(),
            Action::CursorEnd => app.move_cursor_end(),
            Action::Launch => app.launch_selection(now),
            Action::ToggleMode => app.toggle_mode(),
            Action::ToggleTui => {
                let _ = app.toggle_tui_preference();
            },
            Action::ToggleDormant => app.toggle_dormant(),
            Action::ClearInput => app.clear_input(),
            Action::Insert(c) => app.insert_char(c),
            Action::Backspace => app.backspace(),
            Action::Delete => app.delete_char(),
            Action::GoTop => app.go_top(),
            Action::GoBottom => app.go_bottom(),
            Action::Quit => app.quit(),
            Action::Nothing => {},
        }
        a
    }
}

} // verus!
