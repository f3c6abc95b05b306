//! The Rose Pine Moon palette and ANSI styling of text.
use vstd::prelude::*;

use crate::text::{decimal, push_decimal};

verus! {

/// A 24-bit colour.
#[derive(Debug, Clone, Copy, PartialEq, Eq, Structural)]
pub struct Color {
    pub r: u8,
    pub g: u8,
    pub b: u8,
}

/// Resets every attribute.
pub const RESET: &'static str = "\x1b[0m";

/// Resets the foreground colour.
pub const RESET_FG: &'static str = "\x1b[39m";

/// Resets the background colour.
pub const RESET_BG: &'static str = "\x1b[49m";

/// Clears the whole screen.
pub const CLEAR_SCREEN: &'static str = "\x1b[2J";

/// Clears the current line.
pub const CLEAR_LINE: &'static str = "\x1b[2K";

/// Hides the cursor.
pub const HIDE_CURSOR: &'static str = "\x1b[?25l";

/// Shows the cursor.
pub const SHOW_CURSOR: &'static str = "\x1b[?25h";

/// Moves the cursor to the top left corner.
pub const CURSOR_HOME: &'static str = "\x1b[H";

/// The truecolor escape sequence that selects `c`, after the given selector
/// (`"38"` for the foreground, `"48"` for the background).
pub open spec fn truecolor(selector: Seq<char>, c: Color) -> Seq<char> {
    seq!['\x1b', '['] + selector + seq![';', '2', ';'] + decimal(c.r as nat) + seq![';']
        + decimal(c.g as nat) + seq![';'] + decimal(c.b as nat) + seq!['m']
}

/// The sequence that sets the foreground colour to `c`.
pub open spec fn fg_code(c: Color) -> Seq<char> {
    truecolor(seq!['3', '8'], c)
}

/// The sequence that sets the background colour to `c`.
pub open spec fn bg_code(c: Color) -> Seq<char> {
    truecolor(seq!['4', '8'], c)
}

impl Color {
    pub fn new(r: u8, g: u8, b: u8) -> (c: Self)
        ensures
            c == (Color { r, g, b }),
    {
        Color { r, g, b }
    }

    fn code(&self, selector: &str) -> (s: String)
        ensures
            s@ == truecolor(selector@, *self),
    {
        let mut s = String::new();
        s.append("\x1b[");
        s.append(selector);
        s.append(";2;");
        push_decimal(&mut s, self.r as u32);
        s.append(";");
        push_decimal(&mut s, self.g as u32);
        s.append(";");
        push_decimal(&mut s, self.b as u32);
        s.append("m");
        proof {
            reveal_strlit("\x1b[");
            reveal_strlit(";2;");
            reveal_strlit(";");
            reveal_strlit("m");
        }
        assert(s@ =~= truecolor(selector@, *self));
        s
    }

    /// The ANSI truecolor sequence that sets the foreground to this colour.
    pub fn fg(&self) -> (s: String)
        ensures
            s@ == fg_code(*self),
    {
        proof {
            reveal_strlit("38");
        }
        self.code("38")
    }

    /// The ANSI truecolor sequence that sets the background to this colour.
    pub fn bg(&self) -> (s: String)
        ensures
            s@ == bg_code(*self),
    {
        proof {
            reveal_strlit("48");
        }
        self.code("48")
    }
}

/// The Rose Pine Moon palette.
pub struct RosePineMoon;

impl RosePineMoon {
    /// Deepest background, #232136.
    pub fn base() -> (c: Color)
        ensures
            c == (Color { r: 35, g: 33, b: 54 }),
    {
        Color { r: 35, g: 33, b: 54 }
    }

    /// Slightly lifted background, #2a273f.
    pub fn surface() -> (c: Color)
        ensures
            c == (Color { r: 42, g: 39, b: 63 }),
    {
        Color { r: 42, g: 39, b: 63 }
    }

    /// Background of interactive elements, #393552.
    pub fn overlay() -> (c: Color)
        ensures
            c == (Color { r: 57, g: 53, b: 82 }),
    {
        Color { r: 57, g: 53, b: 82 }
    }

    /// #2a283e.
    pub fn highlight_low() -> (c: Color)
        ensures
            c == (Color { r: 42, g: 40, b: 62 }),
    {
        Color { r: 42, g: 40, b: 62 }
    }

    /// #44415a.
    pub fn highlight_med() -> (c: Color)
        ensures
            c == (Color { r: 68, g: 65, b: 90 }),
    {
        Color { r: 68, g: 65, b: 90 }
    }

    /// #56526e.
    pub fn highlight_high() -> (c: Color)
        ensures
            c == (Color { r: 86, g: 82, b: 110 }),
    {
        Color { r: 86, g: 82, b: 110 }
    }

    /// Comments and hints, #6e6a86.
    pub fn muted() -> (c: Color)
        ensures
            c == (Color { r: 110, g: 106, b: 134 }),
    {
        Color { r: 110, g: 106, b: 134 }
    }

    /// Secondary text, #908caa.
    pub fn subtle() -> (c: Color)
        ensures
            c == (Color { r: 144, g: 140, b: 170 }),
    {
        Color { r: 144, g: 140, b: 170 }
    }

    /// Primary text, #e0def4.
    pub fn text() -> (c: Color)
        ensures
            c == (Color { r: 224, g: 222, b: 244 }),
    {
        Color { r: 224, g: 222, b: 244 }
    }

    /// Errors and quitting, #eb6f92.
    pub fn love() -> (c: Color)
        ensures
            c == (Color { r: 235, g: 111, b: 146 }),
    {
        Color { r: 235, g: 111, b: 146 }
    }

    /// Files mode and warnings, #f6c177.
    pub fn gold() -> (c: Color)
        ensures
            c == (Color { r: 246, g: 193, b: 119 }),
    {
        Color { r: 246, g: 193, b: 119 }
    }

    /// Soft highlights, #ea9a97.
    pub fn rose() -> (c: Color)
        ensures
            c == (Color { r: 234, g: 154, b: 151 }),
    {
        Color { r: 234, g: 154, b: 151 }
    }

    /// Insert mode and terminal applications, #3e8fb0.
    pub fn pine() -> (c: Color)
        ensures
            c == (Color { r: 62, g: 143, b: 176 }),
    {
        Color { r: 62, g: 143, b: 176 }
    }

    /// Apps mode and information, #9ccfd8.
    pub fn foam() -> (c: Color)
        ensures
            c == (Color { r: 156, g: 207, b: 216 }),
    {
        Color { r: 156, g: 207, b: 216 }
    }

    /// Normal mode and hints, #c4a7e7.
    pub fn iris() -> (c: Color)
        ensures
            c == (Color { r: 196, g: 167, b: 231 }),
    {
        Color { r: 196, g: 167, b: 231 }
    }
}

/// A set of text attributes, built step by step.
#[derive(Debug, Clone, Copy, PartialEq, Eq, Structural)]
pub struct Style {
    pub fg: Option<Color>,
    pub bg: Option<Color>,
    pub bold: bool,
    pub dim: bool,
    pub italic: bool,
    pub underline: bool,
}

/// The style with no attribute set.
pub open spec fn plain_style() -> Style {
    Style { fg: None, bg: None, bold: false, dim: false, italic: false, underline: false }
}

/// `s` when `b` holds, else nothing.
pub open spec fn when(b: bool, s: Seq<char>) -> Seq<char> {
    if b {
        s
    } else {
        Seq::empty()
    }
}

/// The escape sequences that `st` puts before styled text.
pub open spec fn style_prefix(st: Style) -> Seq<char> {
    when(st.bold, "\x1b[1m"@) + when(st.dim, "\x1b[2m"@) + when(st.italic, "\x1b[3m"@) + when(
        st.underline,
        "\x1b[4m"@,
    ) + match st.fg {
        Some(c) => fg_code(c),
        None => Seq::empty(),
    } + match st.bg {
        Some(c) => bg_code(c),
        None => Seq::empty(),
    }
}

/// `text` rendered in style `st`: the style's sequences, the text, then a reset.
pub open spec fn styled_text(st: Style, text: Seq<char>) -> Seq<char> {
    style_prefix(st) + text + RESET@
}

impl Style {
    pub fn new() -> (st: Self)
        ensures
            st == plain_style(),
    {
        Style { fg: None, bg: None, bold: false, dim: false, italic: false, underline: false }
    }

    pub fn fg(self, color: Color) -> (st: Self)
        ensures
            st == (Style { fg: Some(color), ..self }),
    {
        Style { fg: Some(color), ..self }
    }

    pub fn bg(self, color: Color) -> (st: Self)
        ensures
            st == (Style { bg: Some(color), ..self }),
    {
        Style { bg: Some(color), ..self }
    }

    pub fn bold(self) -> (st: Self)
        ensures
            st == (Style { bold: true, ..self }),
    {
        Style { bold: true, ..self }
    }

    pub fn dim(self) -> (st: Self)
        ensures
            st == (Style { dim: true, ..self }),
    {
        Style { dim: true, ..self }
    }

    pub fn italic(self) -> (st: Self)
        ensures
            st == (Style { italic: true, ..self }),
    {
        Style { italic: true, ..self }
    }

    pub fn underline(self) -> (st: Self)
        ensures
            st == (Style { underline: true, ..self }),
    {
        Style { underline: true, ..self }
    }

    /// Wraps `text` in this style's escape sequences, ending with a reset.
    pub fn apply(&self, text: &str) -> (r: String)
        ensures
            r@ == styled_text(*self, text@),
    {
        let mut r = String::new();
        if self.bold {
            r.append("\x1b[1m");
        }
        if self.dim {
            r.append("\x1b[2m");
        }
        if self.italic {
            r.append("\x1b[3m");
        }
        if self.underline {
            r.append("\x1b[4m");
        }
        if let Some(c) = self.fg {
            let code = c.fg();
            r.append(code.as_str());
        }
        if let Some(c) = self.bg {
            let code = c.bg();
            r.append(code.as_str());
        }
        r.append(text);
        r.append(RESET);
        assert(r@ =~= styled_text(*self, text@));
        r
    }
}

impl Default for Style {
    fn default() -> (st: Self)
        ensures
            st == plain_style(),
    {
        Style::new()
    }
}

/// `text` in the foreground colour `fg`.
pub fn styled(text: &str, fg: Color) -> (r: String)
    ensures
        r@ == styled_text(plain_style().fg_set(fg), text@),
{
    Style::new().fg(fg).apply(text)
}

/// `text` in the foreground colour `fg` on the background colour `bg`.
pub fn styled_bg(text: &str, fg: Color, bg: Color) -> (r: String)
    ensures
        r@ == styled_text(plain_style().fg_set(fg).bg_set(bg), text@),
{
    Style::new().fg(fg).bg(bg).apply(text)
}

impl Style {
    /// This style with the foreground colour set to `c`.
    pub open spec fn fg_set(self, c: Color) -> Style {
        Style { fg: Some(c), ..self }
    }

    /// This style with the background colour set to `c`.
    pub open spec fn bg_set(self, c: Color) -> Style {
        Style { bg: Some(c), ..self }
    }
}

} // verus!
