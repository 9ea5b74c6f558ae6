//! The frame: the text and the escape sequences that show a buffer on a
//! terminal. The window of the styled grid comes first, then blank rows down
//! to the status area, the message on screen, and the status bar with the
//! prompt line.

use crate::buffer::{time_colour, Buffer, BufferView, Mode};
use crate::languages::{Glyph, Language, StyledChar};
use crate::numbers::{decimal, decimal_string};
use crate::snippets::Snippet;
use crate::text::{spaces, to_chars};
use crate::viewport::{digits, Cell, LineNumType};
use vstd::prelude::*;

verus! {

/// What the `Debug` format of the standard library writes for the string `s`.
pub uninterp spec fn debug_text(s: Seq<char>) -> Seq<char>;

/// Formats a string by the `Debug` of `str`, which quotes it and escapes
/// what would not show. Trusted: the result depends on the string alone.
#[verifier::external_body]
fn debug_string(s: &str) -> (quoted: String)
    ensures
        quoted@ == debug_text(s@),
{
    format!("{:?}", s)
}

/// The sequence that ends a style.
pub open spec fn reset() -> Seq<char> {
    "\x1b[0m"@
}

/// `s` behind as many spaces as make it `n` characters wide.
pub open spec fn pad_left(s: Seq<char>, n: int) -> Seq<char> {
    if s.len() < n {
        spaces((n - s.len()) as nat) + s
    } else {
        s
    }
}

/// `s` before as many spaces as make it `n` characters wide.
pub open spec fn pad_right(s: Seq<char>, n: int) -> Seq<char> {
    if s.len() < n {
        s + spaces((n - s.len()) as nat)
    } else {
        s
    }
}

/// The first `n` characters of `s`, or all of it.
pub open spec fn clipped(s: Seq<char>, n: int) -> Seq<char> {
    if s.len() > n {
        s.subrange(0, n)
    } else {
        s
    }
}

/// A glyph in its style.
pub open spec fn glyph_text(g: Glyph) -> Seq<char> {
    g.0 + seq![g.1] + reset()
}

/// The first `n` glyphs of `row`, each in its style.
pub open spec fn glyphs_text(row: Seq<Glyph>, n: nat) -> Seq<char>
    decreases n,
{
    if n == 0 {
        Seq::empty()
    } else {
        glyphs_text(row, (n - 1) as nat) + glyph_text(row[n - 1])
    }
}

/// A row that the cursor is not on: its glyphs, cut off or filled up with
/// spaces at `width` cells.
pub open spec fn row_text(row: Seq<Glyph>, width: int) -> Seq<char> {
    if row.len() >= width {
        glyphs_text(row, width as nat)
    } else {
        glyphs_text(row, row.len()) + spaces((width - row.len()) as nat)
    }
}

/// `n` rows of `width` spaces, each followed by a line feed where `newlines` asks for it.
pub open spec fn blank_rows(width: int, newlines: bool, n: nat) -> Seq<char>
    decreases n,
{
    if n == 0 {
        Seq::empty()
    } else {
        blank_rows(width, newlines, (n - 1) as nat) + spaces(width as nat) + line_end(newlines)
    }
}

/// The end of a row: a line feed where `newlines` asks for it.
pub open spec fn line_end(newlines: bool) -> Seq<char> {
    if newlines {
        seq!['\n']
    } else {
        Seq::empty()
    }
}

/// A line of a message, cut off and filled up at `width` cells and shown
/// in reverse.
pub open spec fn alert_line(line: Seq<char>, width: int, newlines: bool) -> Seq<char> {
    "\x1b[47m\x1b[30m"@ + pad_right(clipped(line, width), width) + reset() + line_end(newlines)
}

/// The first `n` lines of a message.
pub open spec fn alert_text(alert: Seq<Seq<char>>, width: int, newlines: bool, n: nat) -> Seq<
    char,
>
    decreases n,
{
    if n == 0 {
        Seq::empty()
    } else {
        alert_text(alert, width, newlines, (n - 1) as nat) + alert_line(
            alert[n - 1],
            width,
            newlines,
        )
    }
}

impl BufferView {
    /// The cell at column `col` of the line of the cursor, whose glyphs are
    /// `row`: the cursor in reverse, the indent guide and the ruler as a
    /// bar or as their character in colour, and the glyph of the text.
    #[verifier::opaque]
    pub open spec fn cell_text(self, row: Seq<Glyph>, col: int) -> Seq<char> {
        let ch = if col < row.len() {
            row[col].1
        } else {
            ' '
        };
        match self.cell(col) {
            Cell::Cursor => (if self.mode != Mode::Nav {
                "\x1b[47m\x1b[30m"@
            } else {
                "\x1b[46m\x1b[30m"@
            }) + seq![ch] + reset(),
            Cell::IndentGuide => if ch == ' ' {
                "\x1b[2;33m|\x1b[0m"@
            } else {
                "\x1b[33m"@ + seq![ch] + reset()
            },
            Cell::Ruler => if ch == ' ' {
                "\x1b[2;31m|\x1b[0m"@
            } else {
                "\x1b[31m"@ + seq![ch] + reset()
            },
            Cell::Text => if col < row.len() {
                glyph_text(row[col])
            } else {
                seq![' ']
            },
        }
    }

    /// The first `n` cells of the line of the cursor.
    pub open spec fn cells_text(self, row: Seq<Glyph>, n: nat) -> Seq<char>
        decreases n,
    {
        if n == 0 {
            Seq::empty()
        } else {
            self.cells_text(row, (n - 1) as nat) + self.cell_text(row, n - 1)
        }
    }

    /// The gutter of row `r`: nothing where line numbers are hidden, else the
    /// number of the row, right-aligned and dimmed but on the line of the cursor.
    #[verifier::opaque]
    pub open spec fn gutter_text(self, r: int) -> Seq<char> {
        if self.line_num_type() == LineNumType::Hidden {
            Seq::empty()
        } else {
            (if r == self.line {
                "\x1b[36m"@
            } else {
                "\x1b[2m\x1b[36m"@
            }) + pad_left(decimal(self.gutter_number(r) as nat), digits(self.grid.len()) as int)
                + "  \x1b[0m"@
        }
    }

    /// Row `r` of the grid on a screen of `width` columns.
    #[verifier::opaque]
    pub open spec fn screen_row(self, r: int, width: int, newlines: bool) -> Seq<char> {
        self.gutter_text(r) + (if r == self.line {
            self.cells_text(self.grid[r], self.text_width(width) as nat) + seq!['\n']
        } else {
            row_text(self.grid[r], self.text_width(width)) + line_end(newlines)
        })
    }

    /// The `n` rows from the top of the window on.
    pub open spec fn screen_rows(self, width: int, newlines: bool, n: nat) -> Seq<char>
        decreases n,
    {
        if n == 0 {
            Seq::empty()
        } else {
            self.screen_rows(width, newlines, (n - 1) as nat) + self.screen_row(
                self.top + n - 1,
                width,
                newlines,
            )
        }
    }

    /// The name of the autocomplete engine.
    pub open spec fn engine_name(self) -> Seq<char> {
        if self.markdown_engine {
            "Markdown"@
        } else {
            "Text"@
        }
    }

    /// The start of the status bar: the path, and a mark where the text
    /// has changed.
    #[verifier::opaque]
    pub open spec fn bar_path(self) -> Seq<char> {
        "["@ + self.filepath + (if self.vars.contains_key("changed"@) && self.vars["changed"@]
            == crate::buffer::VarView::Bool(true) {
            " [*]"@
        } else {
            Seq::empty()
        }) + "] "@
    }

    /// The search and the replacement string in the status bar, each where
    /// there is one.
    #[verifier::opaque]
    pub open spec fn bar_strings(self) -> Seq<char> {
        (if self.find_str.len() == 0 {
            Seq::empty()
        } else {
            "(?: "@ + debug_text(self.find_str) + ") "@
        }) + (if self.replace_str.len() == 0 {
            Seq::empty()
        } else {
            "(-> "@ + debug_text(self.replace_str) + ") "@
        })
    }

    /// The names of the plugins in the status bar.
    #[verifier::opaque]
    pub open spec fn bar_plugins(self) -> Seq<char> {
        "["@ + self.lang.display_spec() + "; "@ + self.snippets.display_spec() + "; "@
            + self.engine_name() + "] "@
    }

    /// The frame rate in the status bar, in a field of 12 characters.
    #[verifier::opaque]
    pub open spec fn bar_speed(self) -> Seq<char> {
        "("@ + pad_right(
            time_colour(self.iter_time as nat) + decimal(
                (1_000_000int / (self.iter_time + 1)) as nat,
            ) + reset(),
            12,
        ) + " fps) "@
    }

    /// The status bar, cut off five characters behind the width of the
    /// screen: the path, the search and the replacement string, the names of
    /// the plugins, the frame rate, and the text `event` of the last event.
    pub open spec fn bar_text(self, event: Seq<char>, width: int) -> Seq<char> {
        clipped(
            self.bar_path() + self.bar_strings() + self.bar_plugins() + self.bar_speed() + event,
            width + 5,
        )
    }

    /// What follows the body of the frame where the status bar is shown: the
    /// bar, and the prompt line filled up to the width of the screen.
    #[verifier::opaque]
    pub open spec fn status_text(self, event: Seq<char>, width: int, newlines: bool) -> Seq<char> {
        (if newlines {
            pad_right(self.bar_text(event, width), width) + reset() + seq!['\n']
        } else {
            self.bar_text(event, width) + reset() + " | "@
        }) + pad_right(self.prompt_text(), width)
    }

    /// The number of rows of the grid on screen.
    pub open spec fn rows_shown(self, height: int, profile: bool) -> int {
        self.window_end(height, profile) - self.top
    }

    /// The number of blank rows between the text and the status area.
    pub open spec fn rows_blank(self, height: int, profile: bool) -> int {
        let room = height - self.bottom_pad(profile) - self.rows_shown(height, profile);
        if room > 0 {
            room
        } else {
            0
        }
    }

    /// The number of lines of the message that are shown: at most 17.
    pub open spec fn alert_shown(self) -> int {
        if self.alert.len() > 17 {
            17
        } else {
            self.alert.len() as int
        }
    }

    /// The frame above the status bar: the window, the blank rows and the message.
    pub open spec fn frame_body(
        self,
        width: int,
        height: int,
        profile: bool,
        newlines: bool,
    ) -> Seq<char> {
        self.screen_rows(width, newlines, self.rows_shown(height, profile) as nat) + blank_rows(
            width,
            newlines,
            self.rows_blank(height, profile) as nat,
        ) + alert_text(self.alert, width, newlines, self.alert_shown() as nat)
    }

    /// The frame: the body and, where the status bar is shown, the bar and
    /// the prompt line filled up to the width of the screen; without the
    /// bar the body loses its last character.
    pub open spec fn frame(
        self,
        event: Seq<char>,
        width: int,
        height: int,
        profile: bool,
        newlines: bool,
    ) -> Seq<char> {
        let body = self.frame_body(width, height, profile, newlines);
        if self.shows_bottom_bar() {
            body + self.status_text(event, width, newlines)
        } else {
            crate::buffer::popped(body)
        }
    }
}

/// Appends `n` spaces to `out`.
pub fn push_spaces(out: &mut String, n: usize)
    ensures
        final(out)@ == old(out)@ + spaces(n as nat),
{
    let mut i: usize = 0;
    assert(out@ =~= old(out)@ + spaces(0));
    while i < n
        invariant
            i <= n,
            out@ == old(out)@ + spaces(i as nat),
        decreases n - i,
    {
        out.push(' ');
        i += 1;
        assert(out@ =~= old(out)@ + spaces(i as nat));
    }
}

/// Appends `s` to `out`, filled up with spaces to `n` characters, before it
/// (`left`) or behind it.
pub fn push_padded(out: &mut String, s: &str, n: usize, left: bool)
    ensures
        final(out)@ == old(out)@ + (if left {
            pad_left(s@, n as int)
        } else {
            pad_right(s@, n as int)
        }),
{
    let len: usize = s.unicode_len();
    let fill: usize = if len < n {
        n - len
    } else {
        0
    };
    if left {
        push_spaces(out, fill);
        out.append(s);
    } else {
        out.append(s);
        push_spaces(out, fill);
    }
    assert(spaces(0) =~= Seq::<char>::empty());
    assert(out@ =~= old(out)@ + (if left {
        pad_left(s@, n as int)
    } else {
        pad_right(s@, n as int)
    }));
}

/// Appends the first `n` characters of `s`, or all of it, to `out`, filled
/// up with spaces to `n` characters.
pub fn push_clipped(out: &mut String, s: &str, n: usize)
    ensures
        final(out)@ == old(out)@ + pad_right(clipped(s@, n as int), n as int),
{
    let chars = to_chars(s);
    if chars.len() > n {
        let cut = crate::text::from_chars_range(&chars, 0, n);
        out.append(cut.as_str());
    } else {
        push_padded(out, s, n, false);
    }
    assert(spaces(0) =~= Seq::<char>::empty());
    assert(out@ =~= old(out)@ + pad_right(clipped(s@, n as int), n as int));
}

/// Appends the glyph `g` in its style to `out`.
pub fn push_glyph(out: &mut String, g: &StyledChar)
    ensures
        final(out)@ == old(out)@ + glyph_text(g@),
{
    out.append(g.style);
    out.push(g.ch);
    out.append("\x1b[0m");
    assert(out@ =~= old(out)@ + glyph_text(g@));
}

/// Appends `style`, the character `ch` and the end of the style to `out`.
fn push_styled(out: &mut String, style: &str, ch: char)
    ensures
        final(out)@ == old(out)@ + (style@ + seq![ch] + reset()),
{
    out.append(style);
    out.push(ch);
    out.append("\x1b[0m");
    assert(out@ =~= old(out)@ + (style@ + seq![ch] + reset()));
}

/// Appends a row that the cursor is not on to `out`.
pub fn push_row(out: &mut String, row: &Vec<StyledChar>, width: usize)
    ensures
        final(out)@ == old(out)@ + row_text(crate::languages::row_view(row@), width as int),
{
    let ghost glyphs = crate::languages::row_view(row@);
    let n: usize = if row.len() >= width {
        width
    } else {
        row.len()
    };
    let mut i: usize = 0;
    assert(out@ =~= old(out)@ + glyphs_text(glyphs, 0));
    while i < n
        invariant
            i <= n <= row.len(),
            glyphs == crate::languages::row_view(row@),
            out@ == old(out)@ + glyphs_text(glyphs, i as nat),
        decreases n - i,
    {
        let ghost before = out@;
        push_glyph(out, &row[i]);
        i += 1;
        assert(glyphs[i - 1] == row@[i - 1]@);
        assert(out@ =~= old(out)@ + glyphs_text(glyphs, i as nat));
    }
    if row.len() < width {
        push_spaces(out, width - row.len());
    }
    assert(out@ =~= old(out)@ + row_text(glyphs, width as int));
}

/// Appends a line of a message to `out`.
pub fn push_alert_line(out: &mut String, line: &str, width: usize, newlines: bool)
    ensures
        final(out)@ == old(out)@ + alert_line(line@, width as int, newlines),
{
    out.append("\x1b[47m\x1b[30m");
    push_clipped(out, line, width);
    out.append("\x1b[0m");
    if newlines {
        out.push('\n');
    }
    assert(out@ =~= old(out)@ + alert_line(line@, width as int, newlines));
}

/// Appends `n` blank rows to `out`.
pub fn push_blank_rows(out: &mut String, width: usize, newlines: bool, n: usize)
    ensures
        final(out)@ == old(out)@ + blank_rows(width as int, newlines, n as nat),
{
    let mut i: usize = 0;
    assert(out@ =~= old(out)@ + blank_rows(width as int, newlines, 0));
    while i < n
        invariant
            i <= n,
            out@ == old(out)@ + blank_rows(width as int, newlines, i as nat),
        decreases n - i,
    {
        let ghost before = out@;
        push_spaces(out, width);
        if newlines {
            out.push('\n');
        }
        i += 1;
        assert(out@ =~= before + spaces(width as nat) + line_end(newlines));
        assert(out@ =~= old(out)@ + blank_rows(width as int, newlines, i as nat));
    }
}

impl Buffer {
    /// Appends the cell at column `col` of the line of the cursor to `out`.
    fn push_cell(&self, out: &mut String, row: &Vec<StyledChar>, col: usize)
        requires
            self.indent_lvl <= crate::buffer::INDENT_LVL_MAX,
        ensures
            final(out)@ == old(out)@ + self@.cell_text(
                crate::languages::row_view(row@),
                col as int,
            ),
    {
        proof {
            reveal(BufferView::cell_text);
        }
        let ghost glyphs = crate::languages::row_view(row@);
        let ghost wanted = self@.cell_text(glyphs, col as int);
        let ch: char = if col < row.len() {
            row[col].ch
        } else {
            ' '
        };
        proof {
            if col < row.len() {
                assert(glyphs[col as int] == row@[col as int]@);
            }
        }
        match self.cell(col) {
            Cell::Cursor => {
                if self.mode != Mode::Nav {
                    push_styled(out, "\x1b[47m\x1b[30m", ch);
                } else {
                    push_styled(out, "\x1b[46m\x1b[30m", ch);
                }
            },
            Cell::IndentGuide => {
                if ch == ' ' {
                    out.append("\x1b[2;33m|\x1b[0m");
                } else {
                    push_styled(out, "\x1b[33m", ch);
                }
            },
            Cell::Ruler => {
                if ch == ' ' {
                    out.append("\x1b[2;31m|\x1b[0m");
                } else {
                    push_styled(out, "\x1b[31m", ch);
                }
            },
            Cell::Text => {
                if col < row.len() {
                    push_glyph(out, &row[col]);
                } else {
                    out.push(' ');
                    assert(out@ =~= old(out)@ + seq![' ']);
                }
            },
        }
    }

    /// Appends the gutter of row `r` to `out`.
    fn push_gutter(&self, out: &mut String, r: usize)
        requires
            r < usize::MAX,
        ensures
            final(out)@ == old(out)@ + self@.gutter_text(r as int),
    {
        proof {
            reveal(BufferView::gutter_text);
        }
        if self.line_num_type() != LineNumType::Hidden {
            if r == self.cursor_pos.line {
                out.append("\x1b[36m");
            } else {
                out.append("\x1b[2m\x1b[36m");
            }
            let number = decimal_string(self.gutter_number(r) as u128);
            let numsize: usize = self.gutter_width() - 2;
            push_padded(out, number.as_str(), numsize, true);
            out.append("  \x1b[0m");
            assert(out@ =~= old(out)@ + self@.gutter_text(r as int));
        } else {
            assert(out@ =~= old(out)@ + self@.gutter_text(r as int));
        }
    }

    /// Appends row `r` of the grid to `out`.
    fn push_screen_row(&self, out: &mut String, r: usize, width: usize, newlines: bool)
        requires
            r < self@.grid.len(),
            self.indent_lvl <= crate::buffer::INDENT_LVL_MAX,
        ensures
            final(out)@ == old(out)@ + self@.screen_row(r as int, width as int, newlines),
    {
        proof {
            reveal(BufferView::screen_row);
        }
        assert(self.highlighted_contents.len() == self.highlighted_contents@.len());
        self.push_gutter(out, r);
        let ghost start = out@;
        let row = &self.highlighted_contents[r];
        let ghost glyphs = crate::languages::row_view(row@);
        assert(self@.grid[r as int] == glyphs);
        let text_width = self.text_width(width);
        if r == self.cursor_pos.line {
            let mut col: usize = 0;
            assert(out@ =~= start + self@.cells_text(glyphs, 0));
            while col < text_width
                invariant
                    col <= text_width,
                    self.indent_lvl <= crate::buffer::INDENT_LVL_MAX,
                    glyphs == crate::languages::row_view(row@),
                    out@ == start + self@.cells_text(glyphs, col as nat),
                decreases text_width - col,
            {
                self.push_cell(out, row, col);
                col += 1;
                assert(out@ =~= start + self@.cells_text(glyphs, col as nat));
            }
            out.push('\n');
            assert(out@ =~= start + (self@.cells_text(glyphs, text_width as nat) + seq!['\n']));
        } else {
            push_row(out, row, text_width);
            if newlines {
                out.push('\n');
            }
            assert(out@ =~= start + (row_text(glyphs, text_width as int) + line_end(newlines)));
        }
        assert(out@ =~= old(out)@ + self@.screen_row(r as int, width as int, newlines));
    }

    /// Appends the first lines of the message, up to 17, to `out`.
    fn push_alert(&self, out: &mut String, width: usize, newlines: bool)
        ensures
            final(out)@ == old(out)@ + alert_text(
                self@.alert,
                width as int,
                newlines,
                self@.alert_shown() as nat,
            ),
    {
        let n: usize = if self.alert.contents.len() > 17 {
            17
        } else {
            self.alert.contents.len()
        };
        let mut i: usize = 0;
        assert(out@ =~= old(out)@ + alert_text(self@.alert, width as int, newlines, 0));
        while i < n
            invariant
                i <= n <= self.alert.contents.len(),
                out@ == old(out)@ + alert_text(self@.alert, width as int, newlines, i as nat),
            decreases n - i,
        {
            let ghost before = out@;
            push_alert_line(out, self.alert.contents[i].as_str(), width, newlines);
            i += 1;
            proof {
                assert(self@.alert[i - 1] == self.alert.contents@[i - 1]@);
                assert(out@ == before + alert_line(self@.alert[i - 1], width as int, newlines));
                assert(out@ =~= old(out)@ + alert_text(
                    self@.alert,
                    width as int,
                    newlines,
                    i as nat,
                ));
            }
        }
    }

    /// Appends the start of the status bar to `out`.
    fn push_bar_path(&self, out: &mut String)
        ensures
            final(out)@ == old(out)@ + self@.bar_path(),
    {
        proof {
            reveal(BufferView::bar_path);
        }
        out.append("[");
        out.append(self.filepath.as_str());
        if self.flag("changed") {
            out.append(" [*]");
        }
        out.append("] ");
        assert(out@ =~= old(out)@ + self@.bar_path());
    }

    /// Appends the search and the replacement string of the status bar to `out`.
    fn push_bar_strings(&self, out: &mut String)
        ensures
            final(out)@ == old(out)@ + self@.bar_strings(),
    {
        proof {
            reveal(BufferView::bar_strings);
        }
        if self.find_str.as_str().unicode_len() != 0 {
            out.append("(?: ");
            out.append(debug_string(self.find_str.as_str()).as_str());
            out.append(") ");
        }
        let ghost mid = out@;
        if self.replace_str.as_str().unicode_len() != 0 {
            out.append("(-> ");
            out.append(debug_string(self.replace_str.as_str()).as_str());
            out.append(") ");
        }
        proof {
            let find = if self@.find_str.len() == 0 {
                Seq::<char>::empty()
            } else {
                "(?: "@ + debug_text(self@.find_str) + ") "@
            };
            let replace = if self@.replace_str.len() == 0 {
                Seq::<char>::empty()
            } else {
                "(-> "@ + debug_text(self@.replace_str) + ") "@
            };
            assert(mid =~= old(out)@ + find);
            assert(out@ =~= mid + replace);
            assert(out@ =~= old(out)@ + (find + replace));
        }
    }

    /// Appends the names of the plugins to `out`.
    fn push_bar_plugins(&self, out: &mut String)
        ensures
            final(out)@ == old(out)@ + self@.bar_plugins(),
    {
        proof {
            reveal(BufferView::bar_plugins);
        }
        out.append("[");
        out.append(self.lang.display_str());
        out.append("; ");
        out.append(self.snippets.display_str());
        out.append("; ");
        out.append(crate::autocomplete::AutoComplete::display_str(&self.autocomplete));
        out.append("] ");
        assert(out@ =~= old(out)@ + self@.bar_plugins());
    }

    /// Appends the frame rate to `out`.
    fn push_bar_speed(&self, out: &mut String)
        requires
            self.iter_time < u128::MAX,
        ensures
            final(out)@ == old(out)@ + self@.bar_speed(),
    {
        proof {
            reveal(BufferView::bar_speed);
        }
        out.append("(");
        let speed = crate::buffer::style_time(self.iter_time);
        push_padded(out, speed.as_str(), 12, false);
        out.append(" fps) ");
        assert(out@ =~= old(out)@ + self@.bar_speed());
    }

    /// The status bar, with the text `event` for the last event.
    pub fn bar_text(&self, event: &str, width: usize) -> (bar: String)
        requires
            self.iter_time < u128::MAX,
            width + 5 <= usize::MAX,
        ensures
            bar@ == self@.bar_text(event@, width as int),
    {
        let mut bar = String::new();
        self.push_bar_path(&mut bar);
        self.push_bar_strings(&mut bar);
        self.push_bar_plugins(&mut bar);
        self.push_bar_speed(&mut bar);
        bar.append(event);
        let ghost whole = bar@;
        assert(whole =~= self@.bar_path() + self@.bar_strings() + self@.bar_plugins()
            + self@.bar_speed() + event@);
        let chars = to_chars(bar.as_str());
        let limit: usize = width + 5;
        if chars.len() > limit {
            crate::text::from_chars_range(&chars, 0, limit)
        } else {
            bar
        }
    }

    /// Appends the status bar and the prompt line to `out`.
    fn push_status(&self, out: &mut String, event: &str, width: usize, newlines: bool)
        requires
            self.iter_time < u128::MAX,
            width + 5 <= usize::MAX,
        ensures
            final(out)@ == old(out)@ + self@.status_text(event@, width as int, newlines),
    {
        proof {
            reveal(BufferView::status_text);
        }
        let bar = self.bar_text(event, width);
        if newlines {
            push_padded(out, bar.as_str(), width, false);
            out.append("\x1b[0m");
            out.push('\n');
        } else {
            out.append(bar.as_str());
            out.append("\x1b[0m");
            out.append(" | ");
        }
        let ghost barred = out@;
        let prompt = self.prompt_text();
        push_padded(out, prompt.as_str(), width, false);
        proof {
            let bar_part = if newlines {
                pad_right(bar@, width as int) + reset() + seq!['\n']
            } else {
                bar@ + reset() + " | "@
            };
            assert(barred =~= old(out)@ + bar_part);
            assert(out@ =~= old(out)@ + (bar_part + pad_right(prompt@, width as int)));
        }
    }

    /// Appends the rows of the window, from the top to the row before `end`,
    /// to `out`.
    fn push_screen_rows(&self, out: &mut String, end: usize, width: usize, newlines: bool)
        requires
            self.indent_lvl <= crate::buffer::INDENT_LVL_MAX,
            self.top <= end,
            end <= self@.grid.len() || end == self.top,
        ensures
            final(out)@ == old(out)@ + self@.screen_rows(
                width as int,
                newlines,
                (end - self.top) as nat,
            ),
    {
        let mut r: usize = self.top;
        assert(out@ =~= old(out)@ + self@.screen_rows(width as int, newlines, 0));
        while r < end
            invariant
                self.indent_lvl <= crate::buffer::INDENT_LVL_MAX,
                self.top <= r <= end,
                end <= self@.grid.len() || end == self.top,
                out@ == old(out)@ + self@.screen_rows(
                    width as int,
                    newlines,
                    (r - self.top) as nat,
                ),
            decreases end - r,
        {
            let ghost before = out@;
            self.push_screen_row(out, r, width, newlines);
            r += 1;
            assert(out@ == before + self@.screen_row(r - 1, width as int, newlines));
            assert(out@ =~= old(out)@ + self@.screen_rows(
                width as int,
                newlines,
                (r - self.top) as nat,
            ));
        }
    }

    /// The frame that shows the buffer on a screen of `width` by `height`
    /// cells, with the text `event` for the last event in the status bar.
    /// Rows end in a line feed where `newlines` is set; the line of the
    /// cursor does in any case.
    pub fn frame(
        &self,
        event: &str,
        width: usize,
        height: usize,
        profile: bool,
        newlines: bool,
    ) -> (s: String)
        requires
            self.wf(),
            self.iter_time < u128::MAX,
            width + 5 <= usize::MAX,
            self@.alert.len() + 3 <= usize::MAX,
        ensures
            s@ == self@.frame(event@, width as int, height as int, profile, newlines),
    {
        let mut out = String::new();
        let end = self.window_end(height, profile);
        let pad = self.bottom_pad(profile);
        let shown: usize = end - self.top;
        self.push_screen_rows(&mut out, end, width, newlines);
        let blank: usize = if height > pad && height - pad > shown {
            height - pad - shown
        } else {
            0
        };
        push_blank_rows(&mut out, width, newlines, blank);
        self.push_alert(&mut out, width, newlines);
        assert(out@ =~= self@.frame_body(width as int, height as int, profile, newlines));
        if self.flag("showbottombar") {
            self.push_status(&mut out, event, width, newlines);
        } else {
            let _ = out.pop();
        }
        out
    }
}

} // verus!
