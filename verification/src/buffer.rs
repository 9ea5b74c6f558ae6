//! The text buffer: its lines, cursor and prompt strings, and the primitive
//! operations that move the cursor and edit the text.

use crate::autocomplete::{AutoComplete, Engine, UpdateRequest};
use crate::languages::{grid_view, Glyph, Language, LanguageKind, StyledChar};
use crate::numbers::{decimal, decimal_string};
use crate::snippets::SnippetKind;
use crate::text::{
    from_chars, lines_view, skip_whitespace, skip_whitespace_back, spaces, str_eq, to_chars, trim,
    trim_exec,
};
use vstd::hash_map::StringHashMap;
use vstd::prelude::*;

verus! {

/// The name of the scratch buffer, which is never written to storage.
pub open spec fn scratch_path() -> Seq<char> {
    "*scratch"@
}

/// The name of the directory-listing buffer, which is never written to storage.
pub open spec fn direx_path() -> Seq<char> {
    "*direx"@
}

/// Whether a buffer at `path` is backed by a file.
pub open spec fn savable_spec(path: Seq<char>) -> bool {
    path != scratch_path() && path != direx_path()
}

/// Whether a buffer at `path` is backed by a file: every path but the two
/// virtual ones.
pub fn savable(path: &str) -> (b: bool)
    ensures
        b == savable_spec(path@),
{
    !str_eq(path, "*scratch") && !str_eq(path, "*direx")
}

/// A cursor position: a line and a character index in that line, both from 0.
#[derive(Copy, Clone, PartialEq, Eq, Structural)]
pub struct Cursor {
    pub line: usize,
    pub idx: usize,
}

/// The interaction state, which decides where keys are routed.
#[derive(PartialEq, Eq, Clone, Copy, Structural)]
pub enum Mode {
    /// Plain text entry.
    Default,
    /// Text entry without bracket pairing.
    Paste,
    /// Typed characters overwrite the one under the cursor.
    Replace,
    /// Keys edit the search string.
    Find,
    /// Keys edit the replacement string.
    ReplaceStr,
    /// Keys type a line number to jump to.
    Goto,
    /// Keys type the path of a file to open.
    OpenFile,
    /// Keys type a line range to copy.
    Copy,
    /// Keys type a line range to delete.
    KillLines,
    /// Keys type the name of a snippet.
    Snippet,
    /// Command keys move and edit.
    Nav,
    /// Typed text is also captured into the replacement string.
    Tee,
    /// Keys type a line range to shift.
    Indent,
    /// Keys type the name of the mode to switch to.
    Switch,
}

/// The mode that the trimmed name `t` stands for.
pub open spec fn mode_named(t: Seq<char>) -> Mode {
    if t == "paste"@ || t == "p"@ {
        Mode::Paste
    } else if t == "replace"@ || t == "r"@ {
        Mode::Replace
    } else if t == "find"@ || t == "f"@ {
        Mode::Find
    } else if t == "replacestr"@ || t == "rs"@ {
        Mode::ReplaceStr
    } else if t == "goto"@ || t == "g"@ {
        Mode::Goto
    } else if t == "switch"@ || t == "s"@ {
        Mode::Switch
    } else if t == "open"@ || t == "o"@ || t == "openfile"@ {
        Mode::OpenFile
    } else if t == "copy"@ || t == "c"@ {
        Mode::Copy
    } else if t == "snippet"@ || t == "sn"@ {
        Mode::Snippet
    } else if t == "killlines"@ || t == "kl"@ || t == "k"@ {
        Mode::KillLines
    } else if t == "tee"@ || t == "t"@ {
        Mode::Tee
    } else if t == "nav"@ || t == "n"@ {
        Mode::Nav
    } else if t == "indent"@ || t == "i"@ {
        Mode::Indent
    } else {
        Mode::Default
    }
}

impl Mode {
    /// Whether the mode shows the command accumulator as a prompt.
    pub open spec fn shows_temp(self) -> bool {
        match self {
            Mode::Default | Mode::Paste | Mode::Replace | Mode::Find | Mode::ReplaceStr
            | Mode::Tee => false,
            Mode::Goto | Mode::Switch | Mode::OpenFile | Mode::Copy | Mode::Snippet
            | Mode::KillLines | Mode::Nav | Mode::Indent => true,
        }
    }

    /// The label of the mode in the status line.
    pub open spec fn label(self) -> Seq<char> {
        match self {
            Mode::Default => "default"@,
            Mode::Paste => "paste"@,
            Mode::Replace => "replace"@,
            Mode::Find => "find"@,
            Mode::ReplaceStr => "replace str"@,
            Mode::Goto => "goto"@,
            Mode::OpenFile => "open file"@,
            Mode::Copy => "copying (from -> to)"@,
            Mode::Snippet => "snippet request"@,
            Mode::KillLines => "Killing lines (from -> to)"@,
            Mode::Nav => "nav :"@,
            Mode::Tee => "tee"@,
            Mode::Indent => "indent"@,
            Mode::Switch => "switch to mode"@,
        }
    }

    /// The mode with the name or alias `s`, surrounding whitespace ignored;
    /// an unknown name gives `Default`.
    pub fn from_string(s: &str) -> (m: Mode)
        ensures
            m == mode_named(trim(s@)),
    {
        let trimmed = trim_exec(s);
        let t = trimmed.as_str();
        if str_eq(t, "paste") || str_eq(t, "p") {
            Mode::Paste
        } else if str_eq(t, "replace") || str_eq(t, "r") {
            Mode::Replace
        } else if str_eq(t, "find") || str_eq(t, "f") {
            Mode::Find
        } else if str_eq(t, "replacestr") || str_eq(t, "rs") {
            Mode::ReplaceStr
        } else if str_eq(t, "goto") || str_eq(t, "g") {
            Mode::Goto
        } else if str_eq(t, "switch") || str_eq(t, "s") {
            Mode::Switch
        } else if str_eq(t, "open") || str_eq(t, "o") || str_eq(t, "openfile") {
            Mode::OpenFile
        } else if str_eq(t, "copy") || str_eq(t, "c") {
            Mode::Copy
        } else if str_eq(t, "snippet") || str_eq(t, "sn") {
            Mode::Snippet
        } else if str_eq(t, "killlines") || str_eq(t, "kl") || str_eq(t, "k") {
            Mode::KillLines
        } else if str_eq(t, "tee") || str_eq(t, "t") {
            Mode::Tee
        } else if str_eq(t, "nav") || str_eq(t, "n") {
            Mode::Nav
        } else if str_eq(t, "indent") || str_eq(t, "i") {
            Mode::Indent
        } else {
            Mode::Default
        }
    }

    /// Whether the mode shows the command accumulator as a prompt, so that
    /// printable keys go to it and not into the text.
    pub fn show_temp(self) -> (b: bool)
        ensures
            b == self.shows_temp(),
    {
        match self {
            Mode::Default | Mode::Paste | Mode::Replace | Mode::Find | Mode::ReplaceStr
            | Mode::Tee => false,
            Mode::Goto | Mode::Switch | Mode::OpenFile | Mode::Copy | Mode::Snippet
            | Mode::KillLines | Mode::Nav | Mode::Indent => true,
        }
    }

    /// The label of the mode in the status line.
    pub fn display_str(self) -> (s: &'static str)
        ensures
            s@ == self.label(),
    {
        match self {
            Mode::Default => "default",
            Mode::Paste => "paste",
            Mode::Replace => "replace",
            Mode::Find => "find",
            Mode::ReplaceStr => "replace str",
            Mode::Goto => "goto",
            Mode::OpenFile => "open file",
            Mode::Copy => "copying (from -> to)",
            Mode::Snippet => "snippet request",
            Mode::KillLines => "Killing lines (from -> to)",
            Mode::Nav => "nav :",
            Mode::Tee => "tee",
            Mode::Indent => "indent",
            Mode::Switch => "switch to mode",
        }
    }
}

/// The escape sequence that colours a frame time of `t` microseconds: green
/// under 16666, yellow under 50000, red from there on.
pub open spec fn time_colour(t: nat) -> Seq<char> {
    if t < 16666 {
        "\x1b[32m"@
    } else if t < 50000 {
        "\x1b[33m"@
    } else {
        "\x1b[31m"@
    }
}

/// The escape sequence for `t`, as `time_colour` defines it.
fn time_colour_exec(t: u128) -> (s: &'static str)
    ensures
        s@ == time_colour(t as nat),
{
    if t < 16666 {
        "\x1b[32m"
    } else if t < 50000 {
        "\x1b[33m"
    } else {
        "\x1b[31m"
    }
}

/// The frame rate that a frame time of `t` microseconds amounts to, coloured
/// by `time_colour`.
pub fn style_time(t: u128) -> (s: String)
    requires
        t < u128::MAX,
    ensures
        s@ == time_colour(t as nat) + decimal((1_000_000int / (t + 1)) as nat) + "\x1b[0m"@,
{
    let mut s = String::from_str(time_colour_exec(t));
    s.append(decimal_string(1_000_000 / (t + 1)).as_str());
    s.append("\x1b[0m");
    s
}

/// The frame time `t` itself, coloured by `time_colour`.
pub fn style_time_raw(t: u128) -> (s: String)
    ensures
        s@ == time_colour(t as nat) + decimal(t as nat) + "\x1b[0m"@,
{
    let mut s = String::from_str(time_colour_exec(t));
    s.append(decimal_string(t).as_str());
    s.append("\x1b[0m");
    s
}

/// A value of the configuration map.
pub enum BimVar {
    Bool(bool),
    Str(String),
}

/// What a `BimVar` stands for.
pub enum VarView {
    Bool(bool),
    Str(Seq<char>),
}

impl View for BimVar {
    type V = VarView;

    open spec fn view(&self) -> VarView {
        match self {
            BimVar::Bool(b) => VarView::Bool(*b),
            BimVar::Str(s) => VarView::Str(s@),
        }
    }
}

impl VarView {
    /// The text that shows the value.
    pub open spec fn text(self) -> Seq<char> {
        match self {
            VarView::Bool(b) => if b {
                "true"@
            } else {
                "false"@
            },
            VarView::Str(s) => s,
        }
    }
}

impl BimVar {
    /// The text that shows the value: `true` or `false`, or the string itself.
    pub fn display(&self) -> (s: String)
        ensures
            s@ == self@.text(),
    {
        match self {
            BimVar::Bool(b) => if *b {
                String::from_str("true")
            } else {
                String::from_str("false")
            },
            BimVar::Str(x) => x.clone(),
        }
    }

    /// A copy of the value.
    pub fn duplicate(&self) -> (v: BimVar)
        ensures
            v@ == self@,
    {
        match self {
            BimVar::Bool(b) => BimVar::Bool(*b),
            BimVar::Str(x) => BimVar::Str(x.clone()),
        }
    }
}

/// A reading of the system clock. Nothing inside it is visible to the proofs.
#[verifier::external_type_specification]
#[verifier::external_body]
pub struct ExSystemTime(std::time::SystemTime);

/// The error of `SystemTime::duration_since`. Nothing inside it is visible
/// to the proofs.
#[verifier::external_type_specification]
#[verifier::external_body]
pub struct ExSystemTimeError(std::time::SystemTimeError);

/// Calls `SystemTime::now`. Trusted; nothing is claimed of the reading,
/// which differs from call to call.
#[verifier::external_body]
fn clock_now() -> (now: std::time::SystemTime) {
    std::time::SystemTime::now()
}

/// Calls `SystemTime::duration_since` with the Unix epoch. Trusted; nothing
/// is claimed of the result.
#[verifier::external_body]
fn since_epoch(now: &std::time::SystemTime) -> (elapsed: Result<
    std::time::Duration,
    std::time::SystemTimeError,
>) {
    now.duration_since(std::time::UNIX_EPOCH)
}

/// Calls `Duration::as_micros`. Trusted; nothing is claimed of the result.
#[verifier::external_body]
fn whole_micros(elapsed: &std::time::Duration) -> (micros: u128) {
    elapsed.as_micros()
}

/// The microseconds since the Unix epoch by the system clock, or `None`
/// where the clock stands before the epoch.
pub(crate) fn now_micros() -> (t: Option<u128>) {
    let now = clock_now();
    match since_epoch(&now) {
        Ok(elapsed) => Some(whole_micros(&elapsed)),
        Err(_) => None,
    }
}

/// A copy of the strings of `lines`.
pub fn clone_lines(lines: &[String]) -> (copy: Vec<String>)
    ensures
        lines_view(copy@) == lines_view(lines@),
        copy@.len() == lines@.len(),
{
    let mut copy: Vec<String> = Vec::new();
    let mut i: usize = 0;
    while i < lines.len()
        invariant
            i <= lines.len(),
            copy@.len() == i,
            forall|k: int| 0 <= k < i ==> (#[trigger] copy@[k])@ == lines@[k]@,
        decreases lines.len() - i,
    {
        let s = lines[i].clone();
        copy.push(s);
        i += 1;
    }
    assert(lines_view(copy@) =~= lines_view(lines@));
    copy
}

/// A transient message: its lines, when it was raised and how long it stays,
/// both in microseconds.
pub struct Alert {
    pub contents: Vec<String>,
    pub time: u128,
    pub timeout: u128,
}

impl Alert {
    /// Whether an alert raised at `time` with `timeout` is over when the clock
    /// reads `now`: when more than `timeout` has passed, or the clock cannot
    /// be read, or it reads a time before `time`.
    pub open spec fn expired(time: u128, timeout: u128, now: Option<u128>) -> bool {
        match now {
            Some(t) => t < time || t - time > timeout,
            None => true,
        }
    }

    /// An alert with the lines `contents`, raised at `time`.
    pub fn at(contents: &[String], time: u128, timeout: u128) -> (a: Alert)
        ensures
            lines_view(a.contents@) == lines_view(contents@),
            a.time == time,
            a.timeout == timeout,
    {
        Alert { contents: clone_lines(contents), time, timeout }
    }

    /// An alert with the lines `contents`, raised now. Where the clock cannot
    /// be read the alert is raised at time 0.
    pub fn new(contents: &[String], timeout: u128) -> (a: Alert)
        ensures
            lines_view(a.contents@) == lines_view(contents@),
            a.timeout == timeout,
    {
        let time: u128 = match now_micros() {
            Some(t) => t,
            None => 0,
        };
        Alert::at(contents, time, timeout)
    }

    /// Whether the alert is over when the clock reads `now`.
    pub fn expired_at(&self, now: Option<u128>) -> (b: bool)
        ensures
            b == Alert::expired(self.time, self.timeout, now),
    {
        match now {
            Some(t) => t < self.time || t - self.time > self.timeout,
            None => true,
        }
    }

    /// Whether the alert is over by the system clock: what `expired_at`
    /// gives for the reading of the clock.
    pub fn check(&self) -> (b: bool) {
        let now = now_micros();
        self.expired_at(now)
    }
}

/// The paths that were opened, oldest first, and the index of the current one.
pub struct BufferHistory {
    pub hist: Vec<String>,
    pub head: usize,
}

/// The lines that show a history: each path after a two-character marker,
/// `> ` for the current one and two spaces for the others.
pub open spec fn history_lines(hist: Seq<Seq<char>>, head: int) -> Seq<Seq<char>> {
    Seq::new(
        hist.len(),
        |i: int|
            if i == head {
                "> "@ + hist[i]
            } else {
                "  "@ + hist[i]
            },
    )
}

impl BufferHistory {
    /// The lines that show the history, the current path marked.
    pub fn display(&self) -> (lines: Vec<String>)
        ensures
            lines_view(lines@) == history_lines(lines_view(self.hist@), self.head as int),
    {
        let mut lines: Vec<String> = Vec::new();
        let mut i: usize = 0;
        while i < self.hist.len()
            invariant
                i <= self.hist.len(),
                lines@.len() == i,
                forall|k: int|
                    0 <= k < i ==> (#[trigger] lines@[k])@ == history_lines(
                        lines_view(self.hist@),
                        self.head as int,
                    )[k],
            decreases self.hist.len() - i,
        {
            let mut s = if i == self.head {
                String::from_str("> ")
            } else {
                String::from_str("  ")
            };
            s.append(self.hist[i].as_str());
            lines.push(s);
            i += 1;
        }
        assert(lines_view(lines@) =~= history_lines(lines_view(self.hist@), self.head as int));
        lines
    }
}


/// The displayed buffer: the text and everything that the editor keeps with it.
pub struct Buffer {
    /// The text, line by line. This is what is edited.
    pub contents: Vec<String>,
    /// The styled grid of the text. This is what is shown.
    pub highlighted_contents: Vec<Vec<StyledChar>>,
    /// The time that the last turn took, in microseconds.
    pub iter_time: u128,
    /// The position of the cursor.
    pub cursor_pos: Cursor,
    /// The first line shown.
    pub top: usize,
    /// The path of the file that is edited.
    pub filepath: String,
    /// The string that searches look for.
    pub find_str: String,
    /// The string that replaces what was found.
    pub replace_str: String,
    /// The command accumulator.
    pub temp_str: String,
    /// The indent depth. It changes only by explicit commands.
    pub indent_lvl: usize,
    /// The highlighting plugin.
    pub lang: LanguageKind,
    /// The snippet catalogue.
    pub snippets: SnippetKind,
    /// The autocomplete engine.
    pub autocomplete: Engine,
    /// The configuration, by name.
    pub vars: StringHashMap<BimVar>,
    /// The paths that were opened.
    pub buffer_history: BufferHistory,
    /// The message on screen.
    pub alert: Alert,
    /// The interaction state.
    pub mode: Mode,
    /// Whether leaving a prompt by the cancel key lands in `Nav` mode.
    pub nav_pro: bool,
}

/// The greatest indent depth that a buffer keeps; a command that would pass
/// it leaves the depth as it is.
pub const INDENT_LVL_MAX: usize = 0x0fff_ffff;

/// What a `Buffer` stands for: its fields as mathematical values.
pub struct BufferView {
    /// The text, line by line.
    pub lines: Seq<Seq<char>>,
    /// The styled grid.
    pub grid: Seq<Seq<Glyph>>,
    /// The time that the last turn took, in microseconds.
    pub iter_time: int,
    /// The line of the cursor.
    pub line: int,
    /// The column of the cursor, in characters.
    pub idx: int,
    /// The first line shown.
    pub top: int,
    /// The path of the file that is edited.
    pub filepath: Seq<char>,
    /// The string that searches look for.
    pub find_str: Seq<char>,
    /// The string that replaces what was found.
    pub replace_str: Seq<char>,
    /// The command accumulator.
    pub temp_str: Seq<char>,
    /// The indent depth.
    pub indent_lvl: int,
    /// The highlighting plugin.
    pub lang: LanguageKind,
    /// The snippet catalogue.
    pub snippets: SnippetKind,
    /// Whether the autocomplete engine is the Markdown one.
    pub markdown_engine: bool,
    /// Whether the store of the autocomplete engine is in order.
    pub engine_ok: bool,
    /// The tokens that the autocomplete engine has stored.
    pub tokens: Seq<Seq<char>>,
    /// The configuration, by name.
    pub vars: Map<Seq<char>, VarView>,
    /// The paths that were opened.
    pub hist: Seq<Seq<char>>,
    /// The index of the current path in `hist`.
    pub head: int,
    /// The lines of the message on screen.
    pub alert: Seq<Seq<char>>,
    /// How long the message stays, in microseconds.
    pub alert_timeout: int,
    /// The moment at which the message was raised, in microseconds.
    pub alert_time: int,
    /// The interaction state.
    pub mode: Mode,
    /// Whether leaving a prompt by the cancel key lands in `Nav` mode.
    pub nav_pro: bool,
}

/// The values of a configuration map.
pub open spec fn vars_view(m: Map<Seq<char>, BimVar>) -> Map<Seq<char>, VarView> {
    Map::new(|k: Seq<char>| m.contains_key(k), |k: Seq<char>| m[k]@)
}

/// `s` without its last character; an empty `s` as it is.
pub open spec fn popped(s: Seq<char>) -> Seq<char> {
    if s.len() > 0 {
        s.drop_last()
    } else {
        s
    }
}

/// The lesser of two numbers.
pub open spec fn least(a: int, b: int) -> int {
    if a <= b {
        a
    } else {
        b
    }
}

/// The names of the four entries that a buffer is made with differ from one
/// another.
pub proof fn lemma_var_names_differ()
    ensures
        "changed"@ != "ret-to-nav"@,
        "changed"@ != "line-num-type"@,
        "changed"@ != "showbottombar"@,
        "ret-to-nav"@ != "line-num-type"@,
        "ret-to-nav"@ != "showbottombar"@,
        "line-num-type"@ != "showbottombar"@,
{
    reveal_strlit("changed");
    reveal_strlit("ret-to-nav");
    reveal_strlit("line-num-type");
    reveal_strlit("showbottombar");
    assert("changed"@.len() == 7);
    assert("ret-to-nav"@.len() == 10);
    assert("line-num-type"@.len() == 13);
    assert("showbottombar"@.len() == 13);
    assert("line-num-type"@[0] == 'l');
    assert("showbottombar"@[0] == 's');
}

impl View for Buffer {
    type V = BufferView;

    open spec fn view(&self) -> BufferView {
        BufferView {
            lines: lines_view(self.contents@),
            grid: grid_view(self.highlighted_contents@),
            iter_time: self.iter_time as int,
            line: self.cursor_pos.line as int,
            idx: self.cursor_pos.idx as int,
            top: self.top as int,
            filepath: self.filepath@,
            find_str: self.find_str@,
            replace_str: self.replace_str@,
            temp_str: self.temp_str@,
            indent_lvl: self.indent_lvl as int,
            lang: self.lang,
            snippets: self.snippets,
            markdown_engine: self.autocomplete is Markdown,
            engine_ok: self.autocomplete.wf(),
            tokens: self.autocomplete.tokens(),
            vars: vars_view(self.vars@),
            hist: lines_view(self.buffer_history.hist@),
            head: self.buffer_history.head as int,
            alert: lines_view(self.alert.contents@),
            alert_timeout: self.alert.timeout as int,
            alert_time: self.alert.time as int,
            mode: self.mode,
            nav_pro: self.nav_pro,
        }
    }
}

impl BufferView {
    /// The invariant of a buffer: there is at least one line, the cursor
    /// stands on a line and at or before its end, the indent depth is within
    /// its limit, and the current path is one of the history.
    pub open spec fn wf(self) -> bool {
        &&& self.lines.len() > 0
        &&& 0 <= self.line < self.lines.len()
        &&& 0 <= self.idx <= self.lines[self.line].len()
        &&& 0 <= self.indent_lvl <= INDENT_LVL_MAX
        &&& self.hist.len() > 0
        &&& 0 <= self.head < self.hist.len()
        &&& self.engine_ok
    }

    /// The line of the cursor.
    pub open spec fn cur(self) -> Seq<char> {
        self.lines[self.line]
    }

    /// The number of spaces of one indent step.
    pub open spec fn indent_size(self) -> int {
        self.lang.indent_size_spec() as int
    }

    /// The number of spaces that the indent depth asks for.
    pub open spec fn indent_width(self) -> int {
        self.indent_lvl * self.indent_size()
    }

    /// Whether the styled grid is the one of the text.
    pub open spec fn fresh(self) -> bool {
        self.grid == self.lang.highlight_spec(self.lines)
    }

    /// The cursor at column `idx`.
    pub open spec fn at_col(self, idx: int) -> BufferView {
        BufferView { idx: idx, ..self }
    }

    /// The cursor at line `line` and column `idx`.
    pub open spec fn at(self, line: int, idx: int) -> BufferView {
        BufferView { line: line, idx: idx, ..self }
    }

    /// The cursor pulled back to the end of its line where it stands beyond it.
    pub open spec fn clamp(self) -> BufferView {
        self.at_col(least(self.idx, self.cur().len() as int))
    }

    /// The text replaced by `lines`.
    pub open spec fn with_lines(self, lines: Seq<Seq<char>>) -> BufferView {
        BufferView { lines: lines, ..self }
    }

    /// The line `i` replaced by `line`.
    pub open spec fn with_line(self, i: int, line: Seq<char>) -> BufferView {
        self.with_lines(self.lines.update(i, line))
    }

    /// The grid recomputed from the text, and the text marked as changed.
    pub open spec fn update_highlighting(self) -> BufferView {
        BufferView {
            vars: self.vars.insert("changed"@, VarView::Bool(true)),
            grid: self.lang.highlight_spec(self.lines),
            ..self
        }
    }

    /// The line of the cursor rewritten to the indent that the depth asks
    /// for, followed by its trimmed text.
    pub open spec fn adjust_indent(self) -> BufferView {
        self.with_line(
            self.line,
            spaces(self.indent_width() as nat) + trim(self.cur()),
        ).clamp().update_highlighting()
    }

    /// Whether the cursor can move left.
    pub open spec fn can_move_left(self) -> bool {
        self.idx != 0 || self.line != 0
    }

    /// The cursor one character to the left; from the start of a line, at
    /// the end of the line above.
    pub open spec fn move_left(self) -> BufferView {
        if self.idx == 0 {
            if self.line != 0 {
                self.at(self.line - 1, self.lines[self.line - 1].len() as int)
            } else {
                self
            }
        } else {
            self.at_col(self.idx - 1)
        }
    }

    /// Whether the cursor can move right.
    pub open spec fn can_move_right(self) -> bool {
        self.idx != self.cur().len() || self.line + 1 != self.lines.len()
    }

    /// The cursor one character to the right; from the end of a line, at the
    /// start of the line below.
    pub open spec fn move_right(self) -> BufferView {
        if self.idx == self.cur().len() {
            if self.line + 1 != self.lines.len() {
                self.at(self.line + 1, 0)
            } else {
                self
            }
        } else {
            self.at_col(self.idx + 1)
        }
    }

    /// Whether the cursor can move up.
    pub open spec fn can_move_up(self) -> bool {
        self.line != 0
    }

    /// The cursor one line up, at its column or at the end of a shorter line.
    pub open spec fn move_up(self) -> BufferView {
        if self.line != 0 {
            self.at(self.line - 1, least(self.idx, self.lines[self.line - 1].len() as int))
        } else {
            self
        }
    }

    /// Whether the cursor can move down.
    pub open spec fn can_move_down(self) -> bool {
        self.line + 1 != self.lines.len()
    }

    /// The cursor one line down, at its column or at the end of a shorter line.
    pub open spec fn move_down(self) -> BufferView {
        if self.line + 1 != self.lines.len() {
            self.at(self.line + 1, least(self.idx, self.lines[self.line + 1].len() as int))
        } else {
            self
        }
    }

    /// What `fast_backspace` removes: a line break at the start of a line
    /// that is not the first, the first character of the text at its very
    /// start, else the character left of the cursor.
    pub open spec fn erased(self) -> Option<char> {
        if self.idx == 0 {
            if self.line != 0 {
                Some('\n')
            } else if self.lines[0].len() > 0 {
                Some(self.lines[0][0])
            } else {
                None
            }
        } else {
            Some(self.cur()[self.idx - 1])
        }
    }

    /// The buffer once `fast_backspace` has removed what `erased` names. At
    /// the start of a line that is not the first, the line is joined to the
    /// end of the line above and the cursor stands where the two meet.
    pub open spec fn fast_backspace(self) -> BufferView {
        if self.idx == 0 {
            if self.line != 0 {
                let above = self.lines[self.line - 1];
                self.with_lines(
                    self.lines.update(self.line - 1, above + self.cur()).remove(self.line),
                ).at(self.line - 1, above.len() as int)
            } else if self.lines[0].len() > 0 {
                self.with_line(0, self.lines[0].drop_first())
            } else {
                self
            }
        } else {
            self.with_line(self.line, self.cur().remove(self.idx - 1)).at_col(self.idx - 1)
        }
    }

    /// The replacement string cut by one character where the mode is `Tee`.
    pub open spec fn tee_pop(self) -> BufferView {
        if self.mode == Mode::Tee {
            BufferView { replace_str: popped(self.replace_str), ..self }
        } else {
            self
        }
    }

    /// The buffer after `backspace`: as after `fast_backspace`, with the
    /// grid recomputed where something was removed, and in `Tee` mode the
    /// replacement string cut by one character.
    pub open spec fn backspace(self) -> BufferView {
        if self.erased() is Some {
            self.tee_pop().fast_backspace().update_highlighting()
        } else {
            self.tee_pop()
        }
    }

    /// The character `ch` put in at the cursor, which moves behind it; in
    /// `Tee` mode the replacement string grows by `ch`.
    pub open spec fn type_char(self, ch: char) -> BufferView {
        let typed = self.with_line(self.line, self.cur().insert(self.idx, ch)).at_col(
            self.idx + 1,
        );
        let teed = if self.mode == Mode::Tee {
            BufferView { replace_str: self.replace_str.push(ch), ..typed }
        } else {
            typed
        };
        teed.update_highlighting()
    }

    /// A new line below the cursor: the indent that the depth asks for,
    /// followed by `text`. The cursor stands behind the indent.
    pub open spec fn newline_below(self, text: Seq<char>) -> BufferView {
        self.with_lines(
            self.lines.insert(self.line + 1, spaces(self.indent_width() as nat) + text),
        ).at(self.line + 1, self.indent_width()).update_highlighting()
    }

    /// The text indexed by the autocomplete engine: the default engine adds
    /// to its store the tokens of the text that it lacks, the Markdown
    /// engine stores nothing.
    pub open spec fn index_tokens(self) -> BufferView {
        BufferView {
            tokens: if self.markdown_engine {
                Seq::empty()
            } else {
                crate::autocomplete::default::merge(
                    self.tokens,
                    crate::autocomplete::default::tokens_in(self.lines),
                )
            },
            ..self
        }
    }
}

/// Moving left and right are inverse to each other: wherever the cursor
/// can move left, moving left and right again brings it back, also across
/// the end of a line; and likewise right and left again.
pub proof fn lemma_left_right_inverse(v: BufferView)
    requires
        v.wf(),
    ensures
        v.can_move_left() ==> v.move_left().move_right() == v,
        v.can_move_right() ==> v.move_right().move_left() == v,
        !v.can_move_left() ==> v.move_left() == v,
        !v.can_move_right() ==> v.move_right() == v,
{
}

/// The four moves keep the invariant of the buffer, and leave the text as it is.
pub proof fn lemma_moves_keep_invariant(v: BufferView)
    requires
        v.wf(),
    ensures
        v.move_left().wf() && v.move_left().lines == v.lines,
        v.move_right().wf() && v.move_right().lines == v.lines,
        v.move_up().wf() && v.move_up().lines == v.lines,
        v.move_down().wf() && v.move_down().lines == v.lines,
{
}

/// The primitives that edit the text keep the invariant of the buffer.
pub proof fn lemma_edits_keep_invariant(v: BufferView, ch: char, text: Seq<char>)
    requires
        v.wf(),
    ensures
        v.update_highlighting().wf(),
        v.update_highlighting().fresh(),
        v.type_char(ch).fresh(),
        v.newline_below(text).fresh(),
        v.adjust_indent().fresh(),
        v.erased() is Some ==> v.backspace().fresh(),
        v.fast_backspace().wf(),
        v.backspace().wf(),
        v.type_char(ch).wf(),
        v.newline_below(text).wf(),
        v.adjust_indent().wf(),
{
    assert(v.indent_width() >= 0) by (nonlinear_arith)
        requires
            v.indent_lvl >= 0,
            v.indent_size() >= 0,
            v.indent_width() == v.indent_lvl * v.indent_size(),
    ;
}

/// Indenting a line anew is idempotent: a second `adjust_indent` leaves the
/// buffer as the first one left it.
pub proof fn lemma_adjust_indent_idempotent(v: BufferView)
    requires
        v.wf(),
    ensures
        v.adjust_indent().adjust_indent() == v.adjust_indent(),
{
    let once = v.adjust_indent();
    let twice = once.adjust_indent();
    assert(v.indent_width() >= 0) by (nonlinear_arith)
        requires
            v.indent_lvl >= 0,
            v.indent_size() >= 0,
            v.indent_width() == v.indent_lvl * v.indent_size(),
    ;
    crate::text::lemma_trim_of_indented(v.indent_width() as nat, v.cur());
    assert(once.cur() == spaces(v.indent_width() as nat) + trim(v.cur()));
    assert(twice.lines =~= once.lines);
    assert(twice.vars =~= once.vars);
}

impl Buffer {
    /// The invariant of a buffer, on its view.
    pub open spec fn wf(&self) -> bool {
        self@.wf()
    }

    /// Whether the cursor stands on a line of the text, at or before its end.
    pub open spec fn cursor_ok(&self) -> bool {
        &&& self.cursor_pos.line < self.contents@.len()
        &&& self.cursor_pos.idx <= self.contents@[self.cursor_pos.line as int]@.len()
    }

    /// The query before the cursor.
    pub open spec fn query(&self) -> Seq<char> {
        crate::autocomplete::query_at(
            self.contents@[self.cursor_pos.line as int]@,
            self.cursor_pos.idx as int,
        )
    }

    /// The characters of line `i`.
    pub fn line_chars(&self, i: usize) -> (chars: Vec<char>)
        requires
            i < self@.lines.len(),
        ensures
            chars@ == self@.lines[i as int],
    {
        to_chars(self.contents[i].as_str())
    }

    /// The number of characters of line `i`.
    pub fn line_len(&self, i: usize) -> (n: usize)
        requires
            i < self@.lines.len(),
        ensures
            n == self@.lines[i as int].len(),
    {
        self.contents[i].as_str().unicode_len()
    }

    /// Replaces line `i` by the characters `chars`.
    pub fn set_line(&mut self, i: usize, chars: &Vec<char>)
        requires
            i < old(self)@.lines.len(),
        ensures
            final(self)@ == old(self)@.with_line(i as int, chars@),
    {
        let s = from_chars(chars);
        self.contents[i] = s;
        assert(lines_view(self.contents@) =~= old(self)@.lines.update(i as int, chars@));
    }

    /// Puts the characters `chars` in as line `i`.
    pub fn insert_line(&mut self, i: usize, chars: &Vec<char>)
        requires
            i <= old(self)@.lines.len(),
        ensures
            final(self)@ == old(self)@.with_lines(old(self)@.lines.insert(i as int, chars@)),
    {
        let s = from_chars(chars);
        self.contents.insert(i, s);
        assert(lines_view(self.contents@) =~= old(self)@.lines.insert(i as int, chars@));
    }

    /// Takes line `i` out of the text.
    pub fn remove_line(&mut self, i: usize)
        requires
            i < old(self)@.lines.len(),
        ensures
            final(self)@ == old(self)@.with_lines(old(self)@.lines.remove(i as int)),
    {
        let _ = self.contents.remove(i);
        assert(lines_view(self.contents@) =~= old(self)@.lines.remove(i as int));
    }

    /// The number of spaces of one indent step.
    pub fn indent_size(&self) -> (n: usize)
        ensures
            n == self@.indent_size(),
            0 < n <= crate::languages::INDENT_SIZE_MAX,
    {
        self.lang.indent_size()
    }

    /// The number of spaces that the indent depth asks for.
    pub fn indent_width(&self) -> (n: usize)
        requires
            self.indent_lvl <= INDENT_LVL_MAX,
        ensures
            n == self@.indent_width(),
    {
        let size = self.lang.indent_size();
        assert(self.indent_lvl * size <= 0x0fff_ffff * 16) by (nonlinear_arith)
            requires
                self.indent_lvl <= 0x0fff_ffff,
                size <= 16,
        ;
        self.indent_lvl * size
    }

    /// Whether the configuration holds `name` with the value `true`.
    pub fn flag(&self, name: &str) -> (b: bool)
        ensures
            b == (self@.vars.contains_key(name@) && self@.vars[name@] == VarView::Bool(true)),
    {
        match self.vars.get(name) {
            Some(BimVar::Bool(b)) => *b,
            _ => false,
        }
    }

    /// A copy of the entry `name` of the configuration, if there is one.
    pub fn var(&self, name: &str) -> (v: Option<BimVar>)
        ensures
            match v {
                Some(x) => self@.vars.contains_key(name@) && self@.vars[name@] == x@,
                None => !self@.vars.contains_key(name@),
            },
    {
        match self.vars.get(name) {
            Some(x) => Some(x.duplicate()),
            None => None,
        }
    }

    /// Sets the entry `name` of the configuration to `value`.
    pub fn set_var(&mut self, name: &str, value: BimVar)
        ensures
            final(self)@ == (BufferView {
                vars: old(self)@.vars.insert(name@, value@),
                ..old(self)@
            }),
    {
        let key = String::from_str(name);
        self.vars.insert(key, value);
        assert(vars_view(self.vars@) =~= old(self)@.vars.insert(name@, value@));
    }

    /// Hands the text to the autocomplete engine to index.
    pub fn add_tokens(&mut self)
        requires
            old(self).wf(),
        ensures
            final(self).wf(),
            final(self)@ == old(self)@.index_tokens(),
    {
        self.autocomplete.add_tokens(
            UpdateRequest::Whole {
                filepath: self.filepath.as_str(),
                new_contents: self.contents.as_slice(),
            },
        );
    }

    /// Recomputes the styled grid from the text and marks the text as
    /// changed. Call it after every change of the text, before the next
    /// render.
    pub fn update_highlighting(&mut self)
        ensures
            final(self)@ == old(self)@.update_highlighting(),
            final(self)@.fresh(),
    {
        self.set_var("changed", BimVar::Bool(true));
        self.highlighted_contents = self.lang.highlight(self.contents.as_slice());
    }

    /// Rewrites the line of the cursor to the indent that the depth asks for
    /// followed by its trimmed text, and keeps the cursor on the line.
    pub fn adjust_indent(&mut self)
        requires
            old(self).wf(),
        ensures
            final(self).wf(),
            final(self)@ == old(self)@.adjust_indent(),
            final(self)@.fresh(),
    {
        let width = self.indent_width();
        let chars = self.line_chars(self.cursor_pos.line);
        let i = skip_whitespace(&chars, 0);
        let j = skip_whitespace_back(&chars, i, chars.len());
        assert(chars@.subrange(0, chars.len() as int) =~= chars@);
        let mut line: Vec<char> = Vec::new();
        let mut k: usize = 0;
        while k < width
            invariant
                k <= width,
                line@ == spaces(k as nat),
            decreases width - k,
        {
            line.push(' ');
            k += 1;
            assert(line@ =~= spaces(k as nat));
        }
        let mut m: usize = i;
        while m < j
            invariant
                i <= m <= j <= chars.len(),
                line@ == spaces(width as nat) + chars@.subrange(i as int, m as int),
            decreases j - m,
        {
            line.push(chars[m]);
            m += 1;
            assert(line@ =~= spaces(width as nat) + chars@.subrange(i as int, m as int));
        }
        self.set_line(self.cursor_pos.line, &line);
        if self.cursor_pos.idx > line.len() {
            self.cursor_pos.idx = line.len();
        }
        self.update_highlighting();
    }

    /// Moves the cursor one character to the left, to the end of the line
    /// above from the start of a line. Returns whether the cursor moved.
    pub fn move_left(&mut self) -> (moved: bool)
        requires
            old(self).wf(),
        ensures
            final(self).wf(),
            final(self)@ == old(self)@.move_left(),
            moved == old(self)@.can_move_left(),
    {
        if self.cursor_pos.idx == 0 {
            if self.cursor_pos.line != 0 {
                self.cursor_pos.line -= 1;
                self.cursor_pos.idx = self.line_len(self.cursor_pos.line);
            } else {
                return false;
            }
        } else {
            self.cursor_pos.idx -= 1;
        }
        true
    }

    /// Moves the cursor one character to the right, to the start of the line
    /// below from the end of a line. Returns whether the cursor moved.
    pub fn move_right(&mut self) -> (moved: bool)
        requires
            old(self).wf(),
        ensures
            final(self).wf(),
            final(self)@ == old(self)@.move_right(),
            moved == old(self)@.can_move_right(),
    {
        let count: usize = self.contents.len();
        if self.cursor_pos.idx == self.line_len(self.cursor_pos.line) {
            if self.cursor_pos.line + 1 != count {
                self.cursor_pos.line += 1;
                self.cursor_pos.idx = 0;
            } else {
                return false;
            }
        } else {
            self.cursor_pos.idx += 1;
        }
        true
    }

    /// Moves the cursor one line up; in a shorter line it stands at the end.
    /// Returns whether the cursor moved.
    pub fn move_up(&mut self) -> (moved: bool)
        requires
            old(self).wf(),
        ensures
            final(self).wf(),
            final(self)@ == old(self)@.move_up(),
            moved == old(self)@.can_move_up(),
    {
        if self.cursor_pos.line != 0 {
            self.cursor_pos.line -= 1;
            let len = self.line_len(self.cursor_pos.line);
            if self.cursor_pos.idx >= len {
                self.cursor_pos.idx = len;
            }
            true
        } else {
            false
        }
    }

    /// Moves the cursor one line down; in a shorter line it stands at the
    /// end. Returns whether the cursor moved.
    pub fn move_down(&mut self) -> (moved: bool)
        requires
            old(self).wf(),
        ensures
            final(self).wf(),
            final(self)@ == old(self)@.move_down(),
            moved == old(self)@.can_move_down(),
    {
        let count: usize = self.contents.len();
        if self.cursor_pos.line + 1 != count {
            self.cursor_pos.line += 1;
            let len = self.line_len(self.cursor_pos.line);
            if self.cursor_pos.idx > len {
                self.cursor_pos.idx = len;
            }
            true
        } else {
            false
        }
    }

    /// Removes what stands left of the cursor and returns it, without
    /// recomputing the grid: after a run of calls, call `update_highlighting`
    /// once.
    pub fn fast_backspace(&mut self) -> (removed: Option<char>)
        requires
            old(self).wf(),
        ensures
            final(self).wf(),
            final(self)@ == old(self)@.fast_backspace(),
            removed == old(self)@.erased(),
    {
        let t = self.cursor_pos.idx;
        let line = self.cursor_pos.line;
        if t == 0 {
            if line != 0 {
                let mut above = self.line_chars(line - 1);
                let current = self.line_chars(line);
                let oldlen = above.len();
                let mut k: usize = 0;
                let ghost start = above@;
                assert(start + current@.subrange(0, 0) =~= start);
                while k < current.len()
                    invariant
                        k <= current.len(),
                        above@ == start + current@.subrange(0, k as int),
                    decreases current.len() - k,
                {
                    above.push(current[k]);
                    k += 1;
                    assert(above@ =~= start + current@.subrange(0, k as int));
                }
                assert(current@.subrange(0, current@.len() as int) =~= current@);
                self.set_line(line - 1, &above);
                self.remove_line(line);
                self.cursor_pos.line = line - 1;
                self.cursor_pos.idx = oldlen;
                Some('\n')
            } else {
                let mut first = self.line_chars(0);
                if first.len() > 0 {
                    let c = first.remove(0);
                    assert(first@ =~= old(self)@.lines[0].drop_first());
                    self.set_line(0, &first);
                    Some(c)
                } else {
                    None
                }
            }
        } else {
            let mut chars = self.line_chars(line);
            let c = chars.remove(t - 1);
            self.set_line(line, &chars);
            self.cursor_pos.idx = t - 1;
            Some(c)
        }
    }

    /// Removes what stands left of the cursor and returns it: the character
    /// left of the cursor, or at the start of a line the line break before
    /// it, which is returned as a line feed; at the very start of the text
    /// its first character, or nothing in an empty first line. In `Tee` mode
    /// the replacement string loses its last character.
    pub fn backspace(&mut self) -> (removed: Option<char>)
        requires
            old(self).wf(),
        ensures
            final(self).wf(),
            final(self)@ == old(self)@.backspace(),
            removed == old(self)@.erased(),
            removed is Some ==> final(self)@.fresh(),
    {
        if self.mode == Mode::Tee {
            let _ = self.replace_str.pop();
        }
        let removed = self.fast_backspace();
        if removed.is_some() {
            self.update_highlighting();
        }
        removed
    }

    /// Puts `ch` in at the cursor and moves the cursor behind it. In `Tee`
    /// mode `ch` is added to the replacement string too.
    pub fn type_char(&mut self, ch: char)
        requires
            old(self).wf(),
        ensures
            final(self).wf(),
            final(self)@ == old(self)@.type_char(ch),
            final(self)@.fresh(),
    {
        let line = self.cursor_pos.line;
        let mut chars = self.line_chars(line);
        chars.insert(self.cursor_pos.idx, ch);
        assert(chars.len() == chars@.len());
        self.set_line(line, &chars);
        self.cursor_pos.idx += 1;
        if self.mode == Mode::Tee {
            self.replace_str.push(ch);
        }
        self.update_highlighting();
    }

    /// Opens a line below the cursor that holds the indent that the depth
    /// asks for and then `linect`, and puts the cursor behind the indent.
    pub fn newline_below(&mut self, linect: &str)
        requires
            old(self).wf(),
        ensures
            final(self).wf(),
            final(self)@ == old(self)@.newline_below(linect@),
            final(self)@.fresh(),
    {
        let width = self.indent_width();
        let text = to_chars(linect);
        let mut line: Vec<char> = Vec::new();
        let mut k: usize = 0;
        while k < width
            invariant
                k <= width,
                line@ == spaces(k as nat),
            decreases width - k,
        {
            line.push(' ');
            k += 1;
            assert(line@ =~= spaces(k as nat));
        }
        let mut m: usize = 0;
        assert(line@ + text@.subrange(0, 0) =~= line@);
        while m < text.len()
            invariant
                m <= text.len(),
                line@ == spaces(width as nat) + text@.subrange(0, m as int),
            decreases text.len() - m,
        {
            line.push(text[m]);
            m += 1;
            assert(line@ =~= spaces(width as nat) + text@.subrange(0, m as int));
        }
        assert(text@.subrange(0, text@.len() as int) =~= text@);
        assert(self.contents.len() == self.contents@.len());
        self.insert_line(self.cursor_pos.line + 1, &line);
        self.cursor_pos.line += 1;
        self.cursor_pos.idx = width;
        self.update_highlighting();
    }
}

} // verus!
