//! Terminal output: the escape sequences that a frame is drawn with, gathered
//! in a buffer that the caller writes to the terminal device on `flush`.
use vstd::prelude::*;

use crossterm::cursor::{Hide, MoveTo, Show};
use crossterm::terminal::{Clear, ClearType};
use crossterm::Command;

use crate::text::{decimal, push_decimal, repeat_char, repeated};
use crate::theme::{plain_style, styled, styled_bg, styled_text, bg_code, Color, RosePineMoon, Style, RESET};

verus! {

/// The sequence that moves the cursor to column `x`, row `y` (both from zero).
pub open spec fn move_code(x: u16, y: u16) -> Seq<char> {
    seq!['\x1b', '['] + decimal(y as nat + 1) + seq![';'] + decimal(x as nat + 1) + seq!['H']
}

/// The sequence that clears the whole screen.
pub open spec fn clear_all_code() -> Seq<char> {
    seq!['\x1b', '[', '2', 'J']
}

/// The sequence that hides the cursor.
pub open spec fn hide_code() -> Seq<char> {
    seq!['\x1b', '[', '?', '2', '5', 'l']
}

/// The sequence that shows the cursor.
pub open spec fn show_code() -> Seq<char> {
    seq!['\x1b', '[', '?', '2', '5', 'h']
}

/// Relies on crossterm's `cursor::MoveTo` command, whose ANSI form is
/// `ESC [ y+1 ; x+1 H` in decimal. It adds one to each coordinate as a `u16`,
/// so the largest value is left out.
#[verifier::external_body]
fn move_to_ansi(x: u16, y: u16) -> (r: String)
    requires
        x < u16::MAX,
        y < u16::MAX,
    ensures
        r@ == move_code(x, y),
{
    let mut s = String::new();
    let _ = MoveTo(x, y).write_ansi(&mut s);
    s
}

/// Relies on crossterm's `terminal::Clear` command with `ClearType::All`, whose
/// ANSI form is `ESC [ 2 J`.
#[verifier::external_body]
fn clear_all_ansi() -> (r: String)
    ensures
        r@ == clear_all_code(),
{
    let mut s = String::new();
    let _ = Clear(ClearType::All).write_ansi(&mut s);
    s
}

/// Relies on crossterm's `cursor::Hide` command, whose ANSI form is `ESC [ ? 2 5 l`.
#[verifier::external_body]
fn hide_ansi() -> (r: String)
    ensures
        r@ == hide_code(),
{
    let mut s = String::new();
    let _ = Hide.write_ansi(&mut s);
    s
}

/// Relies on crossterm's `cursor::Show` command, whose ANSI form is `ESC [ ? 2 5 h`.
#[verifier::external_body]
fn show_ansi() -> (r: String)
    ensures
        r@ == show_code(),
{
    let mut s = String::new();
    let _ = Show.write_ansi(&mut s);
    s
}

/// The palette's deepest background.
pub open spec fn base_color() -> Color {
    Color { r: 35, g: 33, b: 54 }
}

/// The palette's muted foreground.
pub open spec fn muted_color() -> Color {
    Color { r: 110, g: 106, b: 134 }
}

/// The palette's primary text colour.
pub open spec fn text_color() -> Color {
    Color { r: 224, g: 222, b: 244 }
}

/// The first `n` rows of the screen painted with the base background.
pub open spec fn background_rows(width: u16, n: nat) -> Seq<char>
    decreases n,
{
    if n == 0 {
        Seq::empty()
    } else {
        background_rows(width, (n - 1) as nat) + move_code(0, (n - 1) as u16) + bg_code(base_color())
            + repeat_char(' ', width as nat)
    }
}

/// The whole screen painted with the base background, then a reset.
pub open spec fn background(width: u16, height: u16) -> Seq<char> {
    background_rows(width, height as nat) + RESET@
}

/// A terminal of a given size and the output queued for it.
pub struct Terminal {
    out: String,
    width: u16,
    height: u16,
}

impl Terminal {
    /// The output queued and not yet flushed.
    pub closed spec fn pending(&self) -> Seq<char> {
        self.out@
    }

    /// Columns.
    pub closed spec fn cols(&self) -> u16 {
        self.width
    }

    /// Rows.
    pub closed spec fn rows(&self) -> u16 {
        self.height
    }

    /// A terminal of `width` columns and `height` rows, with the cursor hidden
    /// and the screen cleared to the background colour queued.
    pub fn new(width: u16, height: u16) -> (t: Terminal)
        ensures
            t.cols() == width,
            t.rows() == height,
            t.pending() == hide_code() + clear_all_code() + background(width, height),
    {
        let mut t = Terminal { out: String::new(), width, height };
        t.setup();
        t
    }

    fn setup(&mut self)
        ensures
            final(self).cols() == old(self).cols(),
            final(self).rows() == old(self).rows(),
            final(self).pending() == old(self).pending() + hide_code() + clear_all_code()
                + background(old(self).cols(), old(self).rows()),
    {
        let h = hide_ansi();
        self.out.append(h.as_str());
        self.clear();
        assert(self.out@ =~= old(self).out@ + hide_code() + clear_all_code() + background(
            self.width,
            self.height,
        ));
    }

    /// Queues clearing the screen and painting it with the background colour.
    pub fn clear(&mut self)
        ensures
            final(self).cols() == old(self).cols(),
            final(self).rows() == old(self).rows(),
            final(self).pending() == old(self).pending() + clear_all_code() + background(
                old(self).cols(),
                old(self).rows(),
            ),
    {
        let c = clear_all_ansi();
        self.out.append(c.as_str());
        self.fill_background();
        assert(self.out@ =~= old(self).out@ + clear_all_code() + background(self.width, self.height));
    }

    fn fill_background(&mut self)
        ensures
            final(self).cols() == old(self).cols(),
            final(self).rows() == old(self).rows(),
            final(self).pending() == old(self).pending() + background(
                old(self).cols(),
                old(self).rows(),
            ),
    {
        let bg = RosePineMoon::base().bg();
        let spaces = repeated(' ', self.width as usize);
        let mut y: u16 = 0;
        while y < self.height
            invariant
                y <= self.height,
                self.width == old(self).width,
                self.height == old(self).height,
                bg@ == bg_code(base_color()),
                spaces@ == repeat_char(' ', self.width as nat),
                self.out@ == old(self).out@ + background_rows(self.width, y as nat),
            decreases self.height - y,
        {
            let m = move_to_ansi(0, y);
            self.out.append(m.as_str());
            self.out.append(bg.as_str());
            self.out.append(spaces.as_str());
            y = y + 1;
            assert(self.out@ =~= old(self).out@ + background_rows(self.width, y as nat));
        }
        self.out.append(RESET);
        assert(self.out@ =~= old(self).out@ + background(self.width, self.height));
    }

    /// Queues moving the cursor to column `x`, row `y`.
    pub fn move_to(&mut self, x: u16, y: u16)
        requires
            x < u16::MAX,
            y < u16::MAX,
        ensures
            final(self).cols() == old(self).cols(),
            final(self).rows() == old(self).rows(),
            final(self).pending() == old(self).pending() + move_code(x, y),
    {
        let m = move_to_ansi(x, y);
        self.out.append(m.as_str());
    }

    /// Queues `text`.
    pub fn write(&mut self, text: &str)
        ensures
            final(self).cols() == old(self).cols(),
            final(self).rows() == old(self).rows(),
            final(self).pending() == old(self).pending() + text@,
    {
        self.out.append(text);
    }

    /// Queues `text` at column `x`, row `y`.
    pub fn write_at(&mut self, x: u16, y: u16, text: &str)
        requires
            x < u16::MAX,
            y < u16::MAX,
        ensures
            final(self).cols() == old(self).cols(),
            final(self).rows() == old(self).rows(),
            final(self).pending() == old(self).pending() + move_code(x, y) + text@,
    {
        self.move_to(x, y);
        self.write(text);
    }

    /// Queues `text` in `style` at column `x`, row `y`.
    pub fn write_styled(&mut self, x: u16, y: u16, text: &str, style: &Style)
        requires
            x < u16::MAX,
            y < u16::MAX,
        ensures
            final(self).cols() == old(self).cols(),
            final(self).rows() == old(self).rows(),
            final(self).pending() == old(self).pending() + move_code(x, y) + styled_text(
                *style,
                text@,
            ),
    {
        self.move_to(x, y);
        let s = style.apply(text);
        self.write(s.as_str());
    }

    /// Queues a horizontal line of `width` copies of `ch` in `color`.
    pub fn hline(&mut self, x: u16, y: u16, width: u16, ch: char, color: Color)
        requires
            x < u16::MAX,
            y < u16::MAX,
        ensures
            final(self).cols() == old(self).cols(),
            final(self).rows() == old(self).rows(),
            final(self).pending() == old(self).pending() + move_code(x, y) + styled_text(
                plain_style().fg_set(color),
                repeat_char(ch, width as nat),
            ),
    {
        self.move_to(x, y);
        let line = repeated(ch, width as usize);
        let s = styled(line.as_str(), color);
        self.write(s.as_str());
    }

    /// Queues a horizontal band of `width` spaces on the background `bg`.
    pub fn hline_bg(&mut self, x: u16, y: u16, width: u16, bg: Color)
        requires
            x < u16::MAX,
            y < u16::MAX,
        ensures
            final(self).cols() == old(self).cols(),
            final(self).rows() == old(self).rows(),
            final(self).pending() == old(self).pending() + move_code(x, y) + styled_text(
                plain_style().fg_set(muted_color()).bg_set(bg),
                repeat_char(' ', width as nat),
            ),
    {
        self.move_to(x, y);
        let spaces = repeated(' ', width as usize);
        let s = styled_bg(spaces.as_str(), RosePineMoon::muted(), bg);
        self.write(s.as_str());
    }

    /// Queues painting row `y` across the whole width with the background `bg`.
    pub fn clear_line_bg(&mut self, y: u16, bg: Color)
        requires
            y < u16::MAX,
        ensures
            final(self).cols() == old(self).cols(),
            final(self).rows() == old(self).rows(),
            final(self).pending() == old(self).pending() + move_code(0, y) + styled_text(
                plain_style().fg_set(text_color()).bg_set(bg),
                repeat_char(' ', old(self).cols() as nat),
            ),
    {
        self.move_to(0, y);
        let spaces = repeated(' ', self.width as usize);
        let s = styled_bg(spaces.as_str(), RosePineMoon::text(), bg);
        self.write(s.as_str());
    }

    /// Hands over the queued output, to be written to the terminal device, and
    /// empties the queue.
    pub fn flush(&mut self) -> (r: String)
        ensures
            r@ == old(self).pending(),
            final(self).pending().len() == 0,
            final(self).cols() == old(self).cols(),
            final(self).rows() == old(self).rows(),
    {
        let r = self.out.clone();
        self.out = String::new();
        r
    }

    /// Columns and rows.
    pub fn size(&self) -> (r: (u16, u16))
        ensures
            r == (self.cols(), self.rows()),
    {
        (self.width, self.height)
    }

    /// Queues showing the cursor and clearing the screen, as on leaving.
    pub fn cleanup(&mut self)
        ensures
            final(self).cols() == old(self).cols(),
            final(self).rows() == old(self).rows(),
            final(self).pending() == old(self).pending() + show_code() + clear_all_code(),
    {
        let s = show_ansi();
        self.out.append(s.as_str());
        let c = clear_all_ansi();
        self.out.append(c.as_str());
        assert(self.out@ =~= old(self).out@ + show_code() + clear_all_code());
    }
}

} // verus!
