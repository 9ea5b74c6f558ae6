//! Navigation mode: command keys move and edit, and digits typed before a
//! command repeat it.

use crate::buffer::{least, lemma_var_names_differ, BimVar, Buffer, BufferView, Mode, VarView};
use crate::files::{save_effect, Effect, EffectView};
use crate::keys::{Key, Mods};
use crate::numbers::{parse_usize, parse_usize_exec};
use crate::text::{is_numeric, str_eq, unicode_numeric};
use vstd::prelude::*;

verus! {

/// The most times that a count repeats a command.
pub const VIM_ITER_LIMIT: usize = 10000;

/// A command that a count can repeat.
#[derive(Clone, Copy, PartialEq, Eq, Structural)]
pub enum Motion {
    Left,
    Right,
    Up,
    Down,
    OpenBelow,
    OpenAbove,
    WordForward,
    WordBack,
    PageUp,
    PageDown,
    FindNext,
    FindPrev,
    KillLine,
    DupLine,
    SwapDown,
    SwapUp,
    ScrollDown,
    ScrollUp,
}

impl Motion {
    /// Whether the command leaves the text as it is or recomputes the grid
    /// itself. The other commands change the text and leave the grid to
    /// their caller.
    pub open spec fn keeps_grid(self) -> bool {
        !(self == Motion::KillLine || self == Motion::DupLine || self == Motion::SwapDown || self
            == Motion::SwapUp)
    }
}

impl BufferView {
    /// The first line shown one further down, unless it is past the text
    /// already, and the cursor moved down.
    #[verifier::opaque]
    pub open spec fn scroll_down(self) -> BufferView {
        (if self.top < self.lines.len() {
            BufferView { top: self.top + 1, ..self }
        } else {
            self
        }).move_down()
    }

    /// The first line shown one further up, unless it is the first line of
    /// the text, and the cursor moved up.
    #[verifier::opaque]
    pub open spec fn scroll_up(self) -> BufferView {
        (if self.top > 0 {
            BufferView { top: self.top - 1, ..self }
        } else {
            self
        }).move_up()
    }

    /// The command `m` done once, on a screen of `height` lines.
    #[verifier::opaque]
    pub open spec fn apply(self, m: Motion, height: int) -> BufferView {
        match m {
            Motion::Left => self.move_left(),
            Motion::Right => self.move_right(),
            Motion::Up => self.move_up(),
            Motion::Down => self.move_down(),
            Motion::OpenBelow => self.newline_below(Seq::empty()),
            Motion::OpenAbove => self.open_above(),
            Motion::WordForward => self.word_forward(),
            Motion::WordBack => self.word_back(),
            Motion::PageUp => self.page_up(height),
            Motion::PageDown => self.page_down(height),
            Motion::FindNext => self.find_next(),
            Motion::FindPrev => self.find_prev(),
            Motion::KillLine => self.kill_line(),
            Motion::DupLine => self.dup_line(),
            Motion::SwapDown => self.swap_down(),
            Motion::SwapUp => self.swap_up(),
            Motion::ScrollDown => self.scroll_down(),
            Motion::ScrollUp => self.scroll_up(),
        }
    }

    /// The command `m` done `n` times in a row.
    pub open spec fn iterate(self, m: Motion, height: int, n: nat) -> BufferView
        decreases n,
    {
        if n == 0 {
            self
        } else {
            self.iterate(m, height, (n - 1) as nat).apply(m, height)
        }
    }

    /// The command `m` under the count of the accumulator. With an empty
    /// accumulator the command is done once. Else it is done as often as
    /// the accumulator says, at most `VIM_ITER_LIMIT` times and not at all
    /// where the accumulator writes no number, and the accumulator is
    /// emptied.
    #[verifier::opaque]
    pub open spec fn repeat(self, m: Motion, height: int) -> BufferView {
        if self.temp_str.len() == 0 {
            self.apply(m, height)
        } else {
            let done = match parse_usize(self.temp_str) {
                Some(n) => self.iterate(m, height, least(n as int, VIM_ITER_LIMIT as int) as nat),
                None => self,
            };
            BufferView { temp_str: Seq::empty(), ..done }
        }
    }

    /// Navigation mode left for text entry: the mode is `Default`, finished
    /// prompts return to it, and the accumulator is emptied.
    pub open spec fn leave_nav(self) -> BufferView {
        BufferView {
            mode: Mode::Default,
            vars: self.vars.insert("ret-to-nav"@, VarView::Bool(false)),
            temp_str: Seq::empty(),
            ..self
        }
    }

    /// The prompt of `mode` opened on an empty accumulator.
    pub open spec fn prompt(self, mode: Mode) -> BufferView {
        BufferView { mode: mode, temp_str: Seq::empty(), ..self }
    }

    /// The mode `mode` entered.
    pub open spec fn enter(self, mode: Mode) -> BufferView {
        BufferView { mode: mode, ..self }
    }

    /// The search string emptied and its prompt opened.
    pub open spec fn ask_find(self) -> BufferView {
        BufferView { mode: Mode::Find, find_str: Seq::empty(), ..self }
    }

    /// The replacement string emptied and its prompt opened.
    pub open spec fn ask_replace(self) -> BufferView {
        BufferView { mode: Mode::ReplaceStr, replace_str: Seq::empty(), ..self }
    }

    /// The lines under the count are removed, and text entry begins on a
    /// fresh indented line in their place.
    #[verifier::opaque]
    pub open spec fn change_lines(self, height: int) -> BufferView {
        self.repeat(Motion::KillLine, height).enter(Mode::Default).move_up().newline_below(
            Seq::empty(),
        ).leave_nav().update_highlighting()
    }

    /// What a character key without modifiers does in navigation mode.
    #[verifier::opaque]
    pub open spec fn nav_char(self, c: char, height: int, now: int) -> BufferView {
        if c == 'q' {
            self.leave_nav()
        } else if c == '0' && self.temp_str.len() == 0 {
            self.home()
        } else if self.temp_str == seq!['f'] {
            (BufferView { temp_str: Seq::empty(), ..self }).seek_next(seq![c])
        } else if unicode_numeric(c) {
            BufferView { temp_str: self.temp_str.push(c), ..self }
        } else if c == 'c' {
            self.repeat(Motion::Left, height)
        } else if c == 'i' {
            self.repeat(Motion::Right, height)
        } else if c == 'e' {
            self.repeat(Motion::Up, height)
        } else if c == 'a' {
            self.repeat(Motion::Down, height)
        } else if c == 'f' {
            BufferView { temp_str: self.temp_str.push('f'), ..self }
        } else if c == 'h' {
            self.replace_found()
        } else if c == 'o' {
            self.repeat(Motion::OpenBelow, height).enter(Mode::Default)
        } else if c == 'O' {
            self.repeat(Motion::OpenAbove, height).enter(Mode::Default)
        } else if c == 'w' {
            self.repeat(Motion::WordForward, height)
        } else if c == 'W' {
            self.repeat(Motion::WordBack, height)
        } else if c == 'g' {
            self.prompt(Mode::Goto)
        } else if c == '/' {
            self.ask_find()
        } else if c == 'r' {
            self.ask_replace()
        } else if c == 'R' {
            self.prompt(Mode::Replace)
        } else if c == ';' {
            self.adopt_indent()
        } else if c == 'b' {
            self.goto_bottom()
        } else if c == '$' {
            self.end()
        } else if c == 't' {
            self.goto_top()
        } else if c == 'u' {
            self.repeat(Motion::PageUp, height)
        } else if c == 'n' {
            self.repeat(Motion::FindNext, height)
        } else if c == 'p' {
            self.repeat(Motion::FindPrev, height)
        } else if c == 'd' {
            self.repeat(Motion::PageDown, height)
        } else if c == 'k' {
            self.repeat(Motion::KillLine, height).update_highlighting()
        } else if c == 'K' {
            self.change_lines(height)
        } else if c == 'y' {
            self.repeat(Motion::DupLine, height).update_highlighting()
        } else if c == 'A' {
            self.repeat(Motion::SwapDown, height).update_highlighting()
        } else if c == 'E' {
            self.repeat(Motion::SwapUp, height).update_highlighting()
        } else if c == '<' {
            self.dedent()
        } else if c == '>' {
            self.indent()
        } else if c == 's' {
            self.saved(now)
        } else {
            self
        }
    }

    /// What a key without modifiers does in navigation mode.
    pub open spec fn nav_plain(self, key: Key, height: int, now: int) -> BufferView {
        match key {
            Key::Esc => self.leave_nav(),
            Key::Home => if self.temp_str.len() == 0 {
                self.home()
            } else {
                self
            },
            Key::End => self.end(),
            Key::Char(c) => self.nav_char(c, height, now),
            _ => self,
        }
    }

    /// What a key with Alt does in navigation mode.
    pub open spec fn nav_alt(self, key: Key, height: int) -> BufferView {
        match key {
            Key::Char(c) => if c == 'o' {
                self.prompt(Mode::OpenFile)
            } else if c == 'a' {
                self.repeat(Motion::ScrollDown, height)
            } else if c == 's' {
                self.prompt(Mode::Snippet)
            } else if c == 'y' {
                self.begin_range(Mode::Copy)
            } else if c == 'e' {
                self.repeat(Motion::ScrollUp, height)
            } else {
                self
            },
            _ => self,
        }
    }

    /// The buffer after a key in navigation mode. A message that the key
    /// raises is raised at `now`, the reading of the clock.
    pub open spec fn nav_step(self, key: Key, mods: Mods, height: int, now: int) -> BufferView {
        match mods {
            Mods::Plain => self.nav_plain(key, height, now),
            Mods::Alt => self.nav_alt(key, height),
            _ => self,
        }
    }

    /// Whether the key saves in navigation mode: `s` after anything but a
    /// pending `f`.
    pub open spec fn nav_saves(self, key: Key, mods: Mods) -> bool {
        mods == Mods::Plain && key == Key::Char('s') && self.temp_str != seq!['f']
    }

    /// What is left to the caller after a key in navigation mode: to leave
    /// the editor on Alt and `q`, to write the file where `s` saved it.
    pub open spec fn nav_effect(self, key: Key, mods: Mods) -> EffectView {
        if mods == Mods::Alt && key == Key::Char('q') {
            EffectView::Quit
        } else if self.nav_saves(key, mods) {
            save_effect(self.written())
        } else {
            EffectView::Nothing
        }
    }
}

/// Moving down `k` times in a row moves the cursor `k` lines down or to the
/// last line, and changes nothing but the cursor.
pub proof fn lemma_iterate_down(v: BufferView, height: int, k: nat)
    requires
        v.wf(),
    ensures
        v.iterate(Motion::Down, height, k).wf(),
        v.iterate(Motion::Down, height, k).line == least(v.line + k, v.lines.len() - 1),
        v.iterate(Motion::Down, height, k) == v.at(
            v.iterate(Motion::Down, height, k).line,
            v.iterate(Motion::Down, height, k).idx,
        ),
    decreases k,
{
    reveal(BufferView::apply);
    if k > 0 {
        lemma_iterate_down(v, height, (k - 1) as nat);
    }
}

/// The repeat count: in navigation mode, with a number in the accumulator,
/// the down key moves the cursor down as many lines as the number says, at
/// most `VIM_ITER_LIMIT` and no further than the last line. It empties the
/// accumulator, leaves the text and everything but the cursor as it is,
/// and leaves nothing to the caller.
pub proof fn lemma_count_then_down(v: BufferView, n: usize, height: int, now: int)
    requires
        v.wf(),
        v.temp_str.len() > 0,
        parse_usize(v.temp_str) == Some(n),
    ensures
        v.nav_step(Key::Char('a'), Mods::Plain, height, now).wf(),
        v.nav_step(Key::Char('a'), Mods::Plain, height, now).line == least(
            v.line + least(n as int, VIM_ITER_LIMIT as int),
            v.lines.len() - 1,
        ),
        v.nav_step(Key::Char('a'), Mods::Plain, height, now) == (BufferView {
            line: v.nav_step(Key::Char('a'), Mods::Plain, height, now).line,
            idx: v.nav_step(Key::Char('a'), Mods::Plain, height, now).idx,
            temp_str: Seq::empty(),
            ..v
        }),
        v.nav_effect(Key::Char('a'), Mods::Plain) == EffectView::Nothing,
{
    reveal(BufferView::nav_char);
    reveal(BufferView::repeat);
    let digits = crate::numbers::unsigned_part(v.temp_str);
    assert(crate::numbers::all_digits(digits));
    if v.temp_str == seq!['f'] {
        assert(digits[0] == 'f');
        assert(!crate::numbers::is_digit(digits[0]));
    }
    lemma_iterate_down(v, height, least(n as int, VIM_ITER_LIMIT as int) as nat);
}

impl Buffer {
    /// Scrolls one line down and moves the cursor down.
    pub fn scroll_down(&mut self)
        requires
            old(self).wf(),
        ensures
            old(self)@.fresh() ==> final(self)@.fresh(),
            final(self).wf(),
            final(self)@ == old(self)@.scroll_down(),
    {
        proof {
            reveal(BufferView::scroll_down);
        }
        if self.top < self.contents.len() {
            self.top += 1;
        }
        let _ = self.move_down();
    }

    /// Scrolls one line up and moves the cursor up.
    pub fn scroll_up(&mut self)
        requires
            old(self).wf(),
        ensures
            old(self)@.fresh() ==> final(self)@.fresh(),
            final(self).wf(),
            final(self)@ == old(self)@.scroll_up(),
    {
        proof {
            reveal(BufferView::scroll_up);
        }
        if self.top > 0 {
            self.top -= 1;
        }
        let _ = self.move_up();
    }

    /// Does the command `m` once, on a screen of `height` lines.
    pub fn apply(&mut self, m: Motion, height: usize)
        requires
            old(self).wf(),
        ensures
            final(self).wf(),
            final(self)@ == old(self)@.apply(m, height as int),
            m.keeps_grid() && old(self)@.fresh() ==> final(self)@.fresh(),
    {
        proof {
            reveal(BufferView::apply);
        }
        match m {
            Motion::Left => {
                let _ = self.move_left();
            },
            Motion::Right => {
                let _ = self.move_right();
            },
            Motion::Up => {
                let _ = self.move_up();
            },
            Motion::Down => {
                let _ = self.move_down();
            },
            Motion::OpenBelow => {
                proof {
                    reveal_strlit("");
                    assert(""@ =~= Seq::<char>::empty());
                }
                self.newline_below("");
            },
            Motion::OpenAbove => self.open_above(),
            Motion::WordForward => self.word_forward(),
            Motion::WordBack => self.word_back(),
            Motion::PageUp => self.page_up(height),
            Motion::PageDown => self.page_down(height),
            Motion::FindNext => self.find_next(),
            Motion::FindPrev => self.find_prev(),
            Motion::KillLine => self.kill_line(),
            Motion::DupLine => self.dup_line(),
            Motion::SwapDown => self.swap_down(),
            Motion::SwapUp => self.swap_up(),
            Motion::ScrollDown => self.scroll_down(),
            Motion::ScrollUp => self.scroll_up(),
        }
    }

    /// Does the command `m` under the count of the accumulator.
    pub fn repeat(&mut self, m: Motion, height: usize)
        requires
            old(self).wf(),
        ensures
            final(self).wf(),
            final(self)@ == old(self)@.repeat(m, height as int),
            m.keeps_grid() && old(self)@.fresh() ==> final(self)@.fresh(),
    {
        proof {
            reveal(BufferView::repeat);
        }
        if self.temp_str.as_str().unicode_len() == 0 {
            self.apply(m, height);
        } else {
            match parse_usize_exec(self.temp_str.as_str()) {
                Some(times) => {
                    let ghost start = self@;
                    let mut i: usize = 0;
                    while i < times && i < VIM_ITER_LIMIT
                        invariant
                            i <= times,
                            i <= VIM_ITER_LIMIT,
                            self.wf(),
                            self@ == start.iterate(m, height as int, i as nat),
                            m.keeps_grid() && start.fresh() ==> self@.fresh(),
                        decreases VIM_ITER_LIMIT - i,
                    {
                        self.apply(m, height);
                        i += 1;
                    }
                },
                None => {},
            }
            self.temp_str.clear();
        }
    }

    /// Leaves navigation mode for text entry.
    pub fn leave_nav(&mut self)
        requires
            old(self).wf(),
        ensures
            final(self).wf(),
            final(self)@ == old(self)@.leave_nav(),
    {
        self.mode = Mode::Default;
        self.set_var("ret-to-nav", BimVar::Bool(false));
        self.temp_str.clear();
    }

    /// Opens the prompt of `mode` on an empty accumulator.
    pub fn prompt(&mut self, mode: Mode)
        requires
            old(self).wf(),
        ensures
            final(self).wf(),
            final(self)@ == old(self)@.prompt(mode),
    {
        self.mode = mode;
        self.temp_str.clear();
    }

    /// Empties the search string and opens its prompt.
    pub fn ask_find(&mut self)
        requires
            old(self).wf(),
        ensures
            final(self).wf(),
            final(self)@ == old(self)@.ask_find(),
    {
        self.mode = Mode::Find;
        self.find_str.clear();
    }

    /// Empties the replacement string and opens its prompt.
    pub fn ask_replace(&mut self)
        requires
            old(self).wf(),
        ensures
            final(self).wf(),
            final(self)@ == old(self)@.ask_replace(),
    {
        self.mode = Mode::ReplaceStr;
        self.replace_str.clear();
    }

    /// Removes the lines under the count and begins text entry on a fresh
    /// indented line in their place.
    pub fn change_lines(&mut self, height: usize)
        requires
            old(self).wf(),
        ensures
            old(self)@.fresh() ==> final(self)@.fresh(),
            final(self).wf(),
            final(self)@ == old(self)@.change_lines(height as int),
    {
        proof {
            reveal(BufferView::change_lines);
        }
        self.repeat(Motion::KillLine, height);
        self.mode = Mode::Default;
        let _ = self.move_up();
        proof {
            reveal_strlit("");
            assert(""@ =~= Seq::<char>::empty());
            lemma_var_names_differ();
        }
        self.newline_below("");
        self.leave_nav();
        self.update_highlighting();
    }

    /// Handles a character key without modifiers in navigation mode.
    /// Returns what is to be written where the key saved the file.
    pub fn nav_char(&mut self, c: char, height: usize) -> (effect: Effect)
        requires
            old(self).wf(),
        ensures
            old(self)@.fresh() ==> final(self)@.fresh(),
            final(self).wf(),
            final(self)@ == old(self)@.nav_char(c, height as int, final(self).alert.time as int),
            effect@ == old(self)@.nav_effect(Key::Char(c), Mods::Plain),
    {
        proof {
            reveal(BufferView::nav_char);
        }
        let pending = str_eq(self.temp_str.as_str(), "f");
        proof {
            reveal_strlit("f");
            assert("f"@ =~= seq!['f']);
        }
        if c == 'q' {
            self.leave_nav();
        } else if c == '0' && self.temp_str.as_str().unicode_len() == 0 {
            self.cursor_pos.idx = 0;
        } else if pending {
            self.temp_str.clear();
            let mut pat: Vec<char> = Vec::new();
            pat.push(c);
            assert(pat@ =~= seq![c]);
            self.seek_next(&pat);
        } else if is_numeric(c) {
            self.temp_str.push(c);
        } else if c == 'c' {
            self.repeat(Motion::Left, height);
        } else if c == 'i' {
            self.repeat(Motion::Right, height);
        } else if c == 'e' {
            self.repeat(Motion::Up, height);
        } else if c == 'a' {
            self.repeat(Motion::Down, height);
        } else if c == 'f' {
            self.temp_str.push('f');
        } else if c == 'h' {
            self.replace_found();
        } else if c == 'o' {
            self.repeat(Motion::OpenBelow, height);
            self.mode = Mode::Default;
        } else if c == 'O' {
            self.repeat(Motion::OpenAbove, height);
            self.mode = Mode::Default;
        } else if c == 'w' {
            self.repeat(Motion::WordForward, height);
        } else if c == 'W' {
            self.repeat(Motion::WordBack, height);
        } else if c == 'g' {
            self.prompt(Mode::Goto);
        } else if c == '/' {
            self.ask_find();
        } else if c == 'r' {
            self.ask_replace();
        } else if c == 'R' {
            self.prompt(Mode::Replace);
        } else if c == ';' {
            self.adopt_indent();
        } else if c == 'b' {
            self.goto_bottom();
        } else if c == '$' {
            self.end();
        } else if c == 't' {
            self.goto_top();
        } else if c == 'u' {
            self.repeat(Motion::PageUp, height);
        } else if c == 'n' {
            self.repeat(Motion::FindNext, height);
        } else if c == 'p' {
            self.repeat(Motion::FindPrev, height);
        } else if c == 'd' {
            self.repeat(Motion::PageDown, height);
        } else if c == 'k' {
            self.repeat(Motion::KillLine, height);
            self.update_highlighting();
        } else if c == 'K' {
            self.change_lines(height);
        } else if c == 'y' {
            self.repeat(Motion::DupLine, height);
            self.update_highlighting();
        } else if c == 'A' {
            self.repeat(Motion::SwapDown, height);
            self.update_highlighting();
        } else if c == 'E' {
            self.repeat(Motion::SwapUp, height);
            self.update_highlighting();
        } else if c == '<' {
            self.dedent();
        } else if c == '>' {
            self.indent();
        } else if c == 's' {
            return match self.save() {
                Some(w) => Effect::Write(w),
                None => Effect::Nothing,
            };
        }
        Effect::Nothing
    }
}

/// Handles a key in navigation mode, on a screen of `height` lines.
/// Returns what is left to the caller: to leave the editor, or to write the
/// file.
pub fn handle_nav(
    buf: &mut Buffer,
    key: Key,
    modifiers: &Mods,
    height: usize,
    _width: usize,
) -> (effect: Effect)
    requires
        old(buf).wf(),
    ensures
        old(buf)@.fresh() ==> final(buf)@.fresh(),
        final(buf).wf(),
        final(buf)@ == old(buf)@.nav_step(
            key,
            *modifiers,
            height as int,
            final(buf).alert.time as int,
        ),
        effect@ == old(buf)@.nav_effect(key, *modifiers),
{
    match modifiers {
        Mods::Plain => match key {
            Key::Esc => {
                buf.leave_nav();
            },
            Key::Home => {
                if buf.temp_str.as_str().unicode_len() == 0 {
                    buf.cursor_pos.idx = 0;
                }
            },
            Key::End => {
                buf.end();
            },
            Key::Char(c) => {
                return buf.nav_char(c, height);
            },
            _ => {},
        },
        Mods::Alt => match key {
            Key::Char(c) => {
                if c == 'q' {
                    return Effect::Quit;
                } else if c == 'o' {
                    buf.prompt(Mode::OpenFile);
                } else if c == 'a' {
                    buf.repeat(Motion::ScrollDown, height);
                } else if c == 's' {
                    buf.prompt(Mode::Snippet);
                } else if c == 'y' {
                    buf.begin_range(Mode::Copy);
                } else if c == 'e' {
                    buf.repeat(Motion::ScrollUp, height);
                }
            },
            _ => {},
        },
        Mods::Ctrl => {},
        Mods::CtrlAlt => {},
    }
    Effect::Nothing
}

} // verus!
