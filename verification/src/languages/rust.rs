//! Rust sources: comments, string and character literals and digits are
//! told apart by one pass over the characters, with a little lookahead.
//!
//! The pass is a state machine. Its state survives the end of a line, but
//! for the line-comment flag, which every line starts without.

use crate::languages::{
    covers, grid_view, has_extension, row_covers, row_view, Glyph, Language, StyledChar,
};
use crate::text::{ends_with, lines_view, to_chars, unicode_numeric};
use vstd::prelude::*;

verus! {

pub struct Rust {}

/// The state that the pass carries from one character to the next.
#[derive(Clone, Copy, PartialEq, Eq, Structural)]
pub struct LexState {
    /// Inside a block comment.
    pub ml_commented: bool,
    /// How many more glyphs belong to the close of a block comment.
    pub ml_comment_ending: u8,
    /// The last character was a backslash.
    pub escaping: bool,
    /// Inside a string literal.
    pub quoted: bool,
    /// A string literal was closed by this character.
    pub quote_ending: bool,
    /// How many more glyphs belong to a character literal.
    pub charquoted: u8,
    /// This character is a digit outside comments and literals.
    pub isnum: bool,
    /// How many more glyphs are marked as an error.
    pub errorsize: usize,
    /// Inside a line comment.
    pub commented: bool,
}

/// The state at the start of a document.
pub open spec fn initial_state() -> LexState {
    LexState {
        ml_commented: false,
        ml_comment_ending: 0,
        escaping: false,
        quoted: false,
        quote_ending: false,
        charquoted: 0,
        isnum: false,
        errorsize: 0,
        commented: false,
    }
}

/// The state at the start of a line that follows a line left in state `st`.
pub open spec fn line_start(st: LexState) -> LexState {
    LexState { commented: false, ..st }
}

/// Whether `line` holds `c` at `off` characters after `idx`.
pub open spec fn ahead(line: Seq<char>, idx: int, off: int, c: char) -> bool {
    idx + off < line.len() && line[idx + off] == c
}

/// Whether neither a comment nor its close covers the character.
pub open spec fn in_code(st: LexState) -> bool {
    !st.escaping && !st.ml_commented && !st.commented && st.ml_comment_ending == 0
}

/// The state once the character at `idx` has been looked at and before its
/// style is chosen.
pub open spec fn detect(st: LexState, line: Seq<char>, idx: int) -> LexState {
    let ch = line[idx];
    let seen = if ch == '*' && ahead(line, idx, 1, '/') {
        LexState { ml_commented: false, ml_comment_ending: 2, ..st }
    } else if ch == '/' {
        if ahead(line, idx, 1, '/') {
            LexState { commented: true, ..st }
        } else if ahead(line, idx, 1, '*') {
            LexState { ml_commented: true, ..st }
        } else {
            st
        }
    } else if in_code(st) {
        if ch == '\"' {
            LexState { quoted: !st.quoted, quote_ending: st.quote_ending || st.quoted, ..st }
        } else if st.charquoted == 0 && !st.quoted {
            if ch == '\'' {
                if ahead(line, idx, 2, '\'') && !ahead(line, idx, 1, '\\') {
                    LexState { charquoted: 3, ..st }
                } else if ahead(line, idx, 3, '\'') {
                    LexState { charquoted: 4, ..st }
                } else {
                    st
                }
            } else if unicode_numeric(ch) {
                LexState { isnum: true, ..st }
            } else {
                st
            }
        } else {
            st
        }
    } else {
        st
    };
    LexState { escaping: ch == '\\', ..seen }
}

/// The style of a glyph in state `st`, by priority: error, comment, close of
/// a block comment, string, close of a string, character literal, digit.
pub open spec fn style_of(st: LexState) -> Seq<char> {
    if st.errorsize != 0 {
        "\x1b[41m\x1b[30m"@
    } else if st.ml_commented || st.commented {
        "\x1b[2m"@
    } else if st.ml_comment_ending != 0 {
        "\x1b[2m"@
    } else if st.quoted {
        "\x1b[32m"@
    } else if st.quote_ending {
        "\x1b[32m"@
    } else if st.charquoted != 0 {
        "\x1b[36m"@
    } else if st.isnum {
        "\x1b[1;34m"@
    } else {
        Seq::empty()
    }
}

/// The state once the style of a glyph is chosen: the countdown or flag that
/// decided the style is used up.
pub open spec fn consume(st: LexState) -> LexState {
    if st.errorsize != 0 {
        LexState { errorsize: (st.errorsize - 1) as usize, ..st }
    } else if st.ml_commented || st.commented {
        st
    } else if st.ml_comment_ending != 0 {
        LexState { ml_comment_ending: (st.ml_comment_ending - 1) as u8, ..st }
    } else if st.quoted {
        st
    } else if st.quote_ending {
        LexState { quote_ending: false, ..st }
    } else if st.charquoted != 0 {
        LexState { charquoted: (st.charquoted - 1) as u8, ..st }
    } else if st.isnum {
        LexState { isnum: false, ..st }
    } else {
        st
    }
}

/// The state after the first `n` characters of `line`, from state `st`.
pub open spec fn scan(st: LexState, line: Seq<char>, n: nat) -> LexState
    decreases n,
{
    if n == 0 {
        st
    } else {
        consume(detect(scan(st, line, (n - 1) as nat), line, n - 1))
    }
}

/// The glyphs of `line` when the pass enters it in state `st`.
pub open spec fn rust_row(st: LexState, line: Seq<char>) -> Seq<Glyph> {
    Seq::new(line.len(), |i: int| (style_of(detect(scan(st, line, i as nat), line, i)), line[i]))
}

/// The state in which the pass enters line `k` of `lines`.
pub open spec fn state_before(lines: Seq<Seq<char>>, k: nat) -> LexState
    decreases k,
{
    if k == 0 {
        initial_state()
    } else {
        line_start(scan(state_before(lines, (k - 1) as nat), lines[k - 1], lines[k - 1].len()))
    }
}

/// The styled grid of a Rust source.
pub open spec fn rust_grid(lines: Seq<Seq<char>>) -> Seq<Seq<Glyph>> {
    Seq::new(lines.len(), |k: int| rust_row(state_before(lines, k as nat), lines[k]))
}

/// Whether `line` holds `c` at `off` characters after `idx`.
fn ahead_exec(line: &Vec<char>, idx: usize, off: usize, c: char) -> (b: bool)
    requires
        idx < line.len(),
        off <= 3,
    ensures
        b == ahead(line@, idx as int, off as int, c),
{
    line.len() - idx > off && line[idx + off] == c
}

/// Looks at the character at `idx`, as `detect` defines it.
fn detect_exec(st: LexState, line: &Vec<char>, idx: usize) -> (next: LexState)
    requires
        idx < line.len(),
    ensures
        next == detect(st, line@, idx as int),
{
    let ch: char = line[idx];
    let mut seen = st;
    if ch == '*' && ahead_exec(line, idx, 1, '/') {
        seen.ml_commented = false;
        seen.ml_comment_ending = 2;
    } else if ch == '/' {
        if ahead_exec(line, idx, 1, '/') {
            seen.commented = true;
        } else if ahead_exec(line, idx, 1, '*') {
            seen.ml_commented = true;
        }
    } else if !st.escaping && !st.ml_commented && !st.commented && st.ml_comment_ending == 0 {
        if ch == '\"' {
            if st.quoted {
                seen.quote_ending = true;
            }
            seen.quoted = !st.quoted;
        } else if st.charquoted == 0 && !st.quoted {
            if ch == '\'' {
                if ahead_exec(line, idx, 2, '\'') && !ahead_exec(line, idx, 1, '\\') {
                    seen.charquoted = 3;
                } else if ahead_exec(line, idx, 3, '\'') {
                    seen.charquoted = 4;
                }
            } else if crate::text::is_numeric(ch) {
                seen.isnum = true;
            }
        }
    }
    seen.escaping = ch == '\\';
    seen
}

/// Chooses the style of a glyph and uses up what decided it.
fn choose_exec(st: LexState) -> (r: (LexState, &'static str))
    ensures
        r.0 == consume(st),
        r.1@ == style_of(st),
{
    let mut next = st;
    if st.errorsize != 0 {
        next.errorsize = st.errorsize - 1;
        (next, "\x1b[41m\x1b[30m")
    } else if st.ml_commented || st.commented {
        (next, "\x1b[2m")
    } else if st.ml_comment_ending != 0 {
        next.ml_comment_ending = st.ml_comment_ending - 1;
        (next, "\x1b[2m")
    } else if st.quoted {
        (next, "\x1b[32m")
    } else if st.quote_ending {
        next.quote_ending = false;
        (next, "\x1b[32m")
    } else if st.charquoted != 0 {
        next.charquoted = st.charquoted - 1;
        (next, "\x1b[36m")
    } else if st.isnum {
        next.isnum = false;
        (next, "\x1b[1;34m")
    } else {
        proof {
            reveal_strlit("");
            assert(""@ =~= Seq::<char>::empty());
        }
        (next, "")
    }
}

/// Highlights one line entered in state `st`; gives the glyphs and the state
/// at the end of the line.
fn highlight_line(st: LexState, line: &str) -> (r: (Vec<StyledChar>, LexState))
    ensures
        row_view(r.0@) == rust_row(st, line@),
        r.1 == scan(st, line@, line@.len()),
{
    let chars = to_chars(line);
    let mut row: Vec<StyledChar> = Vec::new();
    let mut cur = st;
    let mut idx: usize = 0;
    while idx < chars.len()
        invariant
            chars@ == line@,
            idx <= chars.len(),
            row@.len() == idx,
            cur == scan(st, line@, idx as nat),
            forall|k: int| 0 <= k < idx ==> (#[trigger] row@[k])@ == rust_row(st, line@)[k],
        decreases chars.len() - idx,
    {
        let seen = detect_exec(cur, &chars, idx);
        let (next, style) = choose_exec(seen);
        let glyph = StyledChar::styled(style, chars[idx]);
        row.push(glyph);
        cur = next;
        idx += 1;
    }
    assert(row_view(row@) =~= rust_row(st, line@));
    (row, cur)
}

impl Language for Rust {
    open spec fn is_kind_spec(&self, filepath: Seq<char>) -> bool {
        ends_with(filepath, ".rs"@)
    }

    open spec fn highlight_spec(&self, lines: Seq<Seq<char>>) -> Seq<Seq<Glyph>> {
        rust_grid(lines)
    }

    open spec fn indent_size_spec(&self) -> usize {
        4
    }

    open spec fn display_spec(&self) -> Seq<char> {
        "Rust"@
    }

    fn is_kind(&self, filepath: &str) -> (b: bool) {
        has_extension(filepath, ".rs")
    }

    fn highlight(&self, buffer: &[String]) -> (grid: Vec<Vec<StyledChar>>) {
        let mut grid: Vec<Vec<StyledChar>> = Vec::new();
        let mut st = LexState {
            ml_commented: false,
            ml_comment_ending: 0,
            escaping: false,
            quoted: false,
            quote_ending: false,
            charquoted: 0,
            isnum: false,
            errorsize: 0,
            commented: false,
        };
        let ghost lines = lines_view(buffer@);
        let mut k: usize = 0;
        while k < buffer.len()
            invariant
                lines == lines_view(buffer@),
                k <= buffer.len(),
                grid@.len() == k,
                st == state_before(lines, k as nat),
                forall|j: int|
                    0 <= j < k ==> row_view(#[trigger] grid@[j]@) == rust_row(
                        state_before(lines, j as nat),
                        lines[j],
                    ),
            decreases buffer.len() - k,
        {
            let (row, end) = highlight_line(st, buffer[k].as_str());
            grid.push(row);
            st = end;
            st.commented = false;
            k += 1;
        }
        assert(grid_view(grid@) =~= rust_grid(lines));
        assert forall|j: int| 0 <= j < lines.len() implies row_covers(
            #[trigger] grid_view(grid@)[j],
            lines[j],
        ) by {
            assert(grid_view(grid@)[j] == rust_row(state_before(lines, j as nat), lines[j]));
        }
        grid
    }

    fn indent_size(&self) -> (n: usize) {
        4
    }

    fn display_str(&self) -> (s: &'static str) {
        "Rust"
    }
}

} // verus!
