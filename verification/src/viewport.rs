//! The visible window of the text and the figures of the status area: what
//! a render step needs besides the styled grid.

use crate::buffer::{Alert, BimVar, Buffer, BufferView, VarView};
use crate::numbers::decimal;
use crate::text::{lines_view, str_eq};
use vstd::prelude::*;

verus! {

/// The number of lines kept between the cursor and the edge of the window.
pub const MARGIN: usize = 3;

/// The first visible line after a render. The window follows the cursor
/// only when the cursor comes within the margin of an edge: it scrolls down
/// when the cursor passes the lower edge, up when it passes the upper one,
/// and shows the text from its start while the cursor is within the margin
/// of it.
pub open spec fn scrolled(top: int, line: int, height: int, bottom_pad: int) -> int {
    if line <= MARGIN {
        0
    } else if line + bottom_pad + MARGIN > top + height {
        line + bottom_pad + MARGIN - height
    } else if top + MARGIN > line {
        line - MARGIN
    } else {
        top
    }
}

/// While the cursor stays inside the band between the margins the window
/// does not move.
pub proof fn lemma_scroll_hysteresis(top: int, line: int, height: int, bottom_pad: int)
    requires
        line > MARGIN,
        top + MARGIN <= line,
        line + bottom_pad + MARGIN <= top + height,
    ensures
        scrolled(top, line, height, bottom_pad) == top,
{
}

/// After a render the cursor is not above the window.
pub proof fn lemma_scroll_shows_cursor(top: int, line: int, height: int, bottom_pad: int)
    requires
        0 <= top,
        0 <= line,
        height >= bottom_pad + MARGIN,
    ensures
        0 <= scrolled(top, line, height, bottom_pad) <= line,
{
}

/// The first visible line after a render, as `scrolled` defines it.
pub fn scroll(top: usize, line: usize, height: usize, bottom_pad: usize) -> (new_top: usize)
    requires
        line + bottom_pad + MARGIN <= usize::MAX,
    ensures
        new_top == scrolled(top as int, line as int, height as int, bottom_pad as int),
{
    let reach: usize = line + bottom_pad + MARGIN;
    if line <= MARGIN {
        0
    } else if height < reach && top < reach - height {
        reach - height
    } else if line < MARGIN || top > line - MARGIN {
        line - MARGIN
    } else {
        top
    }
}

/// The column of the ruler.
pub const RULER: usize = 80;

/// What a cell of the line of the cursor shows.
#[derive(Clone, Copy, PartialEq, Eq, Structural)]
pub enum Cell {
    /// The cursor.
    Cursor,
    /// The guide at the indent that the depth asks for.
    IndentGuide,
    /// The ruler.
    Ruler,
    /// The glyph of the text, or a blank behind the end of the line.
    Text,
}

/// How line numbers are shown.
#[derive(Clone, Copy, PartialEq, Eq, Structural)]
pub enum LineNumType {
    /// No line numbers.
    Hidden,
    /// The number of each line.
    Absolute,
    /// The distance of each line from the line of the cursor.
    Relative,
}

/// The number of decimal digits of `n`, none for 0.
pub open spec fn digits(n: nat) -> nat
    decreases n,
{
    if n == 0 {
        0
    } else {
        1 + digits(n / 10)
    }
}

/// The number of decimal digits of `n`, none for 0.
pub fn digits_exec(n: usize) -> (d: usize)
    ensures
        d == digits(n as nat),
        d <= 20,
{
    let mut left: usize = n;
    let mut count: usize = 0;
    assert(pow10(0) == 1);
    assert(left as nat * pow10(0) == n) by (nonlinear_arith)
        requires
            left == n,
            pow10(0) == 1,
    ;
    while left != 0
        invariant
            count + digits(left as nat) == digits(n as nat),
            count <= 20,
            left as nat * pow10(count as nat) <= n,
        decreases left,
    {
        proof {
            lemma_pow10_step(left as nat, count as nat, n as nat);
        }
        left = left / 10;
        count += 1;
    }
    count
}

/// Ten to the power of `k`.
pub open spec fn pow10(k: nat) -> nat
    decreases k,
{
    if k == 0 {
        1
    } else {
        10 * pow10((k - 1) as nat)
    }
}

/// A number that still has digits left after `count` were taken off is at
/// least ten to the power of `count`, so that fewer than 20 were taken off.
proof fn lemma_pow10_step(left: nat, count: nat, n: nat)
    requires
        left != 0,
        left * pow10(count) <= n,
        n <= usize::MAX,
        count <= 20,
    ensures
        count < 20,
        (left / 10) * pow10(count + 1) <= n,
{
    assert((left / 10) * pow10(count + 1) <= left * pow10(count)) by (nonlinear_arith)
        requires
            pow10(count + 1) == 10 * pow10(count),
    ;
    if count == 20 {
        reveal_with_fuel(pow10, 21);
        assert(pow10(20) == 100_000_000_000_000_000_000nat);
        assert(left * pow10(20) >= pow10(20)) by (nonlinear_arith)
            requires
                left >= 1,
        ;
    }
}

impl BufferView {
    /// How line numbers are shown.
    pub open spec fn line_num_type(self) -> LineNumType {
        if self.vars.contains_key("line-num-type"@) {
            match self.vars["line-num-type"@] {
                VarView::Str(s) => if s == "absolute"@ {
                    LineNumType::Absolute
                } else if s == "relative"@ {
                    LineNumType::Relative
                } else {
                    LineNumType::Hidden
                },
                VarView::Bool(_) => LineNumType::Hidden,
            }
        } else {
            LineNumType::Hidden
        }
    }

    /// Whether the status bar is shown.
    pub open spec fn shows_bottom_bar(self) -> bool {
        self.vars.contains_key("showbottombar"@) && self.vars["showbottombar"@] == VarView::Bool(
            true,
        )
    }

    /// The number of lines below the text: two for the status bar where it
    /// is shown, one for the timings where they are shown, and the lines of
    /// the message on screen.
    pub open spec fn bottom_pad(self, profile: bool) -> int {
        (if self.shows_bottom_bar() {
            2int
        } else {
            0int
        }) + (if profile {
            1int
        } else {
            0int
        }) + self.alert.len()
    }

    /// The window moved to where a render on `height` lines shows it.
    pub open spec fn scroll(self, height: int, profile: bool) -> BufferView {
        BufferView {
            top: scrolled(self.top, self.line, height, self.bottom_pad(profile)),
            ..self
        }
    }

    /// The number that the gutter shows for line `row`: the number of the
    /// line, counted from 1, or in relative mode the distance from the line
    /// of the cursor for every other line.
    pub open spec fn gutter_number(self, row: int) -> int {
        if row != self.line && self.line_num_type() == LineNumType::Relative {
            if row > self.line {
                row - self.line
            } else {
                self.line - row
            }
        } else {
            row + 1
        }
    }

    /// The line behind the last visible one, on a screen of `height` lines:
    /// the window ends where the room above the status area does, or with
    /// the text.
    pub open spec fn window_end(self, height: int, profile: bool) -> int {
        let room = height - self.bottom_pad(profile);
        if room <= 0 {
            self.top
        } else if self.top + room < self.grid.len() {
            self.top + room
        } else if self.top < self.grid.len() {
            self.grid.len() as int
        } else {
            self.top
        }
    }

    /// The number of columns left for the text on a screen of `width`
    /// columns: all of them, or those that the gutter leaves.
    pub open spec fn text_width(self, width: int) -> int {
        if self.line_num_type() == LineNumType::Hidden {
            width
        } else if width >= digits(self.grid.len()) + 2 {
            width - digits(self.grid.len()) - 2
        } else {
            0
        }
    }

    /// What the cell at column `col` of the line of the cursor shows, by
    /// priority: the cursor, the indent guide, the ruler, the text.
    pub open spec fn cell(self, col: int) -> Cell {
        if col == self.idx {
            Cell::Cursor
        } else if col == self.indent_width() {
            Cell::IndentGuide
        } else if col == RULER {
            Cell::Ruler
        } else {
            Cell::Text
        }
    }

    /// The message taken off the screen.
    pub open spec fn clear_alert(self, now: int) -> BufferView {
        self.raise(Seq::empty(), 1_000_000, now)
    }

    /// The text of the prompt line: the label of the mode, and behind a
    /// colon the accumulator where the mode shows it.
    pub open spec fn prompt_text(self) -> Seq<char> {
        if self.mode.shows_temp() {
            self.mode.label() + ": "@ + self.temp_str
        } else {
            self.mode.label()
        }
    }
}

/// What a terminal event shows as in the status bar: for a key press the
/// names of its modifiers and of its key.
pub enum EventText {
    /// A key press. `plain` says that no modifier was held.
    Key { plain: bool, modifiers: String, code: String },
    /// Any other event.
    Other,
}

/// The text that shows an event: the name of the key, behind the names of
/// its modifiers and a space where modifiers were held; nothing for an event
/// that is no key press.
pub open spec fn event_text(plain: bool, modifiers: Seq<char>, code: Seq<char>) -> Seq<char> {
    if plain {
        code
    } else {
        modifiers + " "@ + code
    }
}

/// The text that shows an event with the names `event` in the status bar.
pub fn show_event(event: &EventText) -> (s: String)
    ensures
        s@ == (match event {
            EventText::Key { plain, modifiers, code } => event_text(*plain, modifiers@, code@),
            EventText::Other => Seq::empty(),
        }),
{
    match event {
        EventText::Key { plain, modifiers, code } => {
            if *plain {
                code.clone()
            } else {
                let mut s = modifiers.clone();
                s.append(" ");
                s.append(code.as_str());
                s
            }
        },
        EventText::Other => String::new(),
    }
}

impl Buffer {
    /// How line numbers are shown.
    pub fn line_num_type(&self) -> (t: LineNumType)
        ensures
            t == self@.line_num_type(),
    {
        match self.vars.get("line-num-type") {
            Some(BimVar::Str(s)) => {
                if str_eq(s.as_str(), "absolute") {
                    LineNumType::Absolute
                } else if str_eq(s.as_str(), "relative") {
                    LineNumType::Relative
                } else {
                    LineNumType::Hidden
                }
            },
            _ => LineNumType::Hidden,
        }
    }

    /// The number of lines below the text.
    pub fn bottom_pad(&self, profile: bool) -> (pad: usize)
        requires
            self@.alert.len() + 3 <= usize::MAX,
        ensures
            pad == self@.bottom_pad(profile),
    {
        let mut pad: usize = if self.flag("showbottombar") {
            2
        } else {
            0
        };
        if profile {
            pad += 1;
        }
        let count: usize = self.alert.contents.len();
        pad + count
    }

    /// Moves the window to where a render on `height` lines shows it.
    pub fn scroll(&mut self, height: usize, profile: bool)
        requires
            old(self).wf(),
            old(self)@.line + old(self)@.alert.len() + 6 <= usize::MAX,
        ensures
            final(self).wf(),
            final(self)@ == old(self)@.scroll(height as int, profile),
    {
        let pad = self.bottom_pad(profile);
        self.top = scroll(self.top, self.cursor_pos.line, height, pad);
    }

    /// The width of the gutter: the digits of the number of lines, and two
    /// columns of space.
    pub fn gutter_width(&self) -> (w: usize)
        ensures
            w == digits(self@.grid.len()) + 2,
    {
        digits_exec(self.highlighted_contents.len()) + 2
    }

    /// The line behind the last visible one, on a screen of `height` lines.
    pub fn window_end(&self, height: usize, profile: bool) -> (end: usize)
        requires
            self@.alert.len() + 3 <= usize::MAX,
        ensures
            end == self@.window_end(height as int, profile),
    {
        let pad = self.bottom_pad(profile);
        let count: usize = self.highlighted_contents.len();
        if height <= pad {
            self.top
        } else if self.top < count && height - pad < count - self.top {
            self.top + (height - pad)
        } else if self.top < count {
            count
        } else {
            self.top
        }
    }

    /// The number of columns left for the text on a screen of `width` columns.
    pub fn text_width(&self, width: usize) -> (w: usize)
        ensures
            w == self@.text_width(width as int),
    {
        let gutter = self.gutter_width();
        if self.line_num_type() == LineNumType::Hidden {
            width
        } else if width >= gutter {
            width - gutter
        } else {
            0
        }
    }

    /// What the cell at column `col` of the line of the cursor shows.
    pub fn cell(&self, col: usize) -> (c: Cell)
        requires
            self.indent_lvl <= crate::buffer::INDENT_LVL_MAX,
        ensures
            c == self@.cell(col as int),
    {
        if col == self.cursor_pos.idx {
            Cell::Cursor
        } else if col == self.indent_width() {
            Cell::IndentGuide
        } else if col == RULER {
            Cell::Ruler
        } else {
            Cell::Text
        }
    }

    /// The number that the gutter shows for line `row`.
    pub fn gutter_number(&self, row: usize) -> (n: usize)
        requires
            row < usize::MAX,
        ensures
            n == self@.gutter_number(row as int),
    {
        let line = self.cursor_pos.line;
        if row != line && self.line_num_type() == LineNumType::Relative {
            if row > line {
                row - line
            } else {
                line - row
            }
        } else {
            row + 1
        }
    }

    /// Takes the message off the screen once its time is over, by the
    /// reading `now` of the clock. Returns whether it did.
    pub fn expire_alert_at(&mut self, now: Option<u128>) -> (expired: bool)
        ensures
            expired == (old(self)@.alert.len() > 0 && Alert::expired(
                old(self).alert.time,
                old(self).alert.timeout,
                now,
            )),
            final(self)@ == (if expired {
                old(self)@.clear_alert(final(self).alert.time as int)
            } else {
                old(self)@
            }),
    {
        if self.alert.contents.len() != 0 && self.alert.expired_at(now) {
            let nothing: Vec<String> = Vec::new();
            assert(lines_view(nothing@) =~= Seq::<Seq<char>>::empty());
            self.raise(nothing.as_slice(), 1_000_000);
            true
        } else {
            false
        }
    }

    /// Takes the message off the screen once its time is over, by the
    /// system clock. Returns whether it did.
    pub fn expire_alert(&mut self) -> (expired: bool)
        ensures
            final(self)@ == (if expired {
                old(self)@.clear_alert(final(self).alert.time as int)
            } else {
                old(self)@
            }),
            expired ==> old(self)@.alert.len() > 0,
    {
        let now = crate::buffer::now_micros();
        self.expire_alert_at(now)
    }

    /// The text of the prompt line.
    pub fn prompt_text(&self) -> (s: String)
        ensures
            s@ == self@.prompt_text(),
    {
        let mut s = String::from_str(self.mode.display_str());
        if self.mode.show_temp() {
            s.append(": ");
            s.append(self.temp_str.as_str());
        }
        s
    }
}

} // verus!
