//! The modes of text entry and its prompts: what a key does outside
//! navigation mode, and the dispatch of a key by the mode of the buffer.

use crate::buffer::{history_lines, mode_named, BimVar, Buffer, BufferView, Mode, VarView};
use crate::files::{save_effect, Effect, EffectView, Resume};
use crate::keys::{Key, Mods};
use crate::nav::handle_nav;
use crate::text::{is_numeric, lines_view, str_eq, trim, unicode_numeric};
use vstd::prelude::*;

verus! {

impl BufferView {
    /// The mode returned to from a prompt, the accumulator kept.
    pub open spec fn back(self) -> BufferView {
        self.enter(self.return_mode())
    }

    /// Navigation mode entered, and made the mode that prompts return to.
    pub open spec fn enter_nav(self) -> BufferView {
        BufferView {
            mode: Mode::Nav,
            vars: self.vars.insert("ret-to-nav"@, VarView::Bool(true)),
            temp_str: Seq::empty(),
            ..self
        }
    }

    /// The way in which line numbers are shown, switched to the next one:
    /// from absolute to relative, from relative to none, else to absolute.
    #[verifier::opaque]
    pub open spec fn cycle_line_numbers(self) -> BufferView {
        if self.vars.contains_key("line-num-type"@) {
            match self.vars["line-num-type"@] {
                VarView::Str(x) => BufferView {
                    vars: self.vars.insert(
                        "line-num-type"@,
                        VarView::Str(
                            if x == "absolute"@ {
                                "relative"@
                            } else if x == "relative"@ {
                                "none"@
                            } else {
                                "absolute"@
                            },
                        ),
                    ),
                    ..self
                },
                VarView::Bool(_) => self,
            }
        } else {
            self
        }
    }

    /// The status bar switched on or off.
    #[verifier::opaque]
    pub open spec fn toggle_bottom_bar(self) -> BufferView {
        if self.vars.contains_key("showbottombar"@) {
            match self.vars["showbottombar"@] {
                VarView::Bool(b) => BufferView {
                    vars: self.vars.insert("showbottombar"@, VarView::Bool(!b)),
                    ..self
                },
                VarView::Str(_) => self,
            }
        } else {
            self
        }
    }

    /// The Enter key pressed: the prompt of the mode is committed, or in a
    /// mode of text entry the line is broken.
    #[verifier::opaque]
    pub open spec fn press_enter(self, now: int) -> BufferView {
        match self.mode {
            Mode::Find | Mode::ReplaceStr | Mode::Tee => self.back(),
            Mode::Indent => self.close_prompt(),
            Mode::Switch => BufferView {
                mode: mode_named(trim(self.temp_str)),
                temp_str: Seq::empty(),
                ..self
            },
            Mode::Goto => self.commit_goto(now),
            Mode::Copy => self.commit_copy(now),
            Mode::KillLines => self.commit_kill(now),
            Mode::OpenFile => self.saved(now).visit(self.temp_str),
            Mode::Snippet => self.commit_snippet(now),
            _ => self.enter_text(),
        }
    }

    /// What a key without modifiers does outside navigation mode.
    #[verifier::opaque]
    pub open spec fn key_plain(self, key: Key, now: int) -> BufferView {
        match key {
            Key::Esc => self.enter(
                if self.nav_pro {
                    Mode::Nav
                } else {
                    Mode::Default
                },
            ),
            Key::Backspace => self.press_backspace(),
            Key::Delete => self.press_delete(),
            Key::Enter => self.press_enter(now),
            Key::BackTab => self.back_tab(),
            Key::Char(c) => self.press_char(c),
            Key::Left => self.move_left(),
            Key::Right => self.move_right(),
            Key::Up => self.move_up(),
            Key::Down => self.move_down(),
            Key::Home => self.home(),
            Key::End => self.end(),
            Key::Tab => self.tab(),
            Key::Other => self,
        }
    }

    /// What the first half of the character keys does with Alt.
    #[verifier::opaque]
    pub open spec fn alt_char(self, c: char, height: int, now: int) -> BufferView {
        if c == 'q' {
            if self.hist.len() < 2 {
                self
            } else {
                self.leave()
            }
        } else if c == 'Q' {
            self
        } else if c == 's' {
            self.saved(now)
        } else if c == 'b' {
            self.goto_bottom()
        } else if c == 't' {
            self.goto_top()
        } else if c == 'c' {
            self.move_left()
        } else if c == 'i' {
            self.move_right()
        } else if c == 'e' {
            self.move_up()
        } else if c == 'a' {
            self.move_down()
        } else if c == 'u' {
            self.page_up(height)
        } else if c == 'd' {
            self.page_down(height)
        } else if c == 'l' {
            self.kill_line().update_highlighting()
        } else if c == ',' {
            self.dec_indent()
        } else if c == '.' {
            self.inc_indent()
        } else if c == 'I' {
            self.adjust_indent()
        } else if c == '<' {
            if self.mode != Mode::Indent {
                self.dedent()
            } else {
                self.commit_shift_left(now)
            }
        } else if c == '>' {
            if self.mode != Mode::Indent {
                self.indent()
            } else {
                self.commit_shift_right(now)
            }
        } else if c == ';' {
            self.adopt_indent()
        } else if c == ':' {
            self.measure_indent()
        } else if c == '/' {
            if self.mode == Mode::Find {
                self.back()
            } else {
                self.ask_find()
            }
        } else if c == 'n' {
            self.find_next()
        } else if c == 'p' {
            self.find_prev()
        } else if c == 'o' {
            self.newline_below(Seq::empty())
        } else if c == 'O' {
            self.open_above()
        } else if c == 'x' || c == 'M' {
            self.prompt(Mode::Switch)
        } else if c == 'h' {
            self.replace_found()
        } else {
            self.alt_char_more(c, now)
        }
    }

    /// What the second half of the character keys does with Alt.
    #[verifier::opaque]
    pub open spec fn alt_char_more(self, c: char, now: int) -> BufferView {
        if c == 'r' {
            if self.mode == Mode::ReplaceStr {
                self.back()
            } else {
                self.ask_replace()
            }
        } else if c == 'j' {
            self.join_lines()
        } else if c == '0' {
            BufferView { indent_lvl: 0, ..self }
        } else if c == 'k' {
            self.kill_to_indent()
        } else if c == 'K' {
            self.kill_to_end()
        } else if c == 'w' {
            self.word_forward()
        } else if c == 'W' {
            self.word_back()
        } else if c == 'y' {
            self.dup_line().update_highlighting()
        } else if c == 'Y' {
            self.begin_range(Mode::Copy)
        } else if c == 'C' {
            self.begin_range(Mode::KillLines)
        } else if c == 'A' {
            if self.line + 1 < self.lines.len() {
                self.swap_down().update_highlighting()
            } else {
                self
            }
        } else if c == 'E' {
            if self.line != 0 {
                self.swap_up().update_highlighting()
            } else {
                self
            }
        } else if c == 'G' {
            self.prompt(Mode::Goto)
        } else if c == 'S' {
            self.prompt(Mode::Snippet)
        } else if c == '[' {
            self.paragraph_up()
        } else if c == ']' {
            self.paragraph_down()
        } else if c == 'N' || c == 'v' {
            self.enter_nav()
        } else if c == '-' {
            self.raise(Seq::empty(), 1_000_000, now)
        } else if c == 'T' {
            BufferView { mode: Mode::Tee, replace_str: Seq::empty(), ..self }
        } else if unicode_numeric(c) {
            if c == '1' {
                self.pick(0)
            } else if c == '2' {
                self.pick(1)
            } else if c == '3' {
                self.pick(2)
            } else if c == '4' {
                self.pick(3)
            } else if c == '5' {
                self.pick(4)
            } else if c == '6' {
                self.list_candidates(now)
            } else {
                self
            }
        } else if c == 'U' {
            self.begin_range(Mode::Indent)
        } else {
            self
        }
    }

    /// What a key with Alt does outside navigation mode.
    pub open spec fn key_alt(self, key: Key, height: int, now: int) -> BufferView {
        match key {
            Key::Char(c) => self.alt_char(c, height, now),
            Key::End => self.goto_bottom(),
            Key::Home => self.goto_top(),
            _ => self,
        }
    }

    /// What a key with Control does outside navigation mode.
    #[verifier::opaque]
    pub open spec fn key_ctrl(self, key: Key, now: int) -> BufferView {
        match key {
            Key::Backspace => self.kill_word(),
            Key::Char(c) => if c == 'N' {
                self.enter_nav()
            } else if c == 'o' {
                self.prompt(Mode::OpenFile)
            } else if c == 'y' {
                self.scroll_down()
            } else if c == 'e' {
                self.scroll_up()
            } else if c == 'b' {
                self.raise(history_lines(self.hist, self.head), 5_000_000, now)
            } else if c == 'p' {
                self.saved(now).switch_to(self.head_before())
            } else if c == 'n' {
                self.saved(now).switch_to(self.head_behind())
            } else {
                self
            },
            _ => self,
        }
    }

    /// What a key with Control and Alt does outside navigation mode.
    pub open spec fn key_ctrl_alt(self, key: Key) -> BufferView {
        if key == Key::Char('L') {
            self.cycle_line_numbers()
        } else if key == Key::Char('B') {
            self.toggle_bottom_bar()
        } else {
            self
        }
    }

    /// The buffer after a key outside navigation mode. A message that the
    /// key raises is raised at `now`, the reading of the clock.
    pub open spec fn key_step(self, key: Key, mods: Mods, height: int, now: int) -> BufferView {
        match mods {
            Mods::Plain => self.key_plain(key, now),
            Mods::Alt => self.key_alt(key, height, now),
            Mods::Ctrl => self.key_ctrl(key, now),
            Mods::CtrlAlt => self.key_ctrl_alt(key),
        }
    }

    /// What is left to the caller after a key outside navigation mode.
    pub open spec fn key_effect(self, key: Key, mods: Mods) -> EffectView {
        match mods {
            Mods::Plain => if key == Key::Enter && self.mode == Mode::OpenFile {
                EffectView::Reload(self.written(), Resume::Opened)
            } else {
                EffectView::Nothing
            },
            Mods::Alt => if key == Key::Char('q') {
                if self.hist.len() < 2 {
                    EffectView::Quit
                } else {
                    EffectView::Reload(None, Resume::Closed)
                }
            } else if key == Key::Char('Q') {
                EffectView::Quit
            } else if key == Key::Char('s') {
                save_effect(self.written())
            } else {
                EffectView::Nothing
            },
            Mods::Ctrl => if key == Key::Char('r') {
                EffectView::Reload(None, Resume::Restarted)
            } else if key == Key::Char('z') {
                EffectView::Reload(None, Resume::Reloaded)
            } else if key == Key::Char('p') || key == Key::Char('n') {
                EffectView::Reload(self.written(), Resume::Cycled)
            } else {
                EffectView::Nothing
            },
            Mods::CtrlAlt => EffectView::Nothing,
        }
    }

    /// The buffer after a key: by the table of navigation mode in that
    /// mode, by the table of the other modes in any other. A message that
    /// the key raises is raised at `now`, the reading of the clock; a key
    /// that raises none leaves the message and its moment as they are.
    pub open spec fn step(self, key: Key, mods: Mods, height: int, now: int) -> BufferView {
        if self.mode == Mode::Nav {
            self.nav_step(key, mods, height, now)
        } else {
            self.key_step(key, mods, height, now)
        }
    }

    /// What is left to the caller after a key.
    pub open spec fn effect(self, key: Key, mods: Mods) -> EffectView {
        if self.mode == Mode::Nav {
            self.nav_effect(key, mods)
        } else {
            self.key_effect(key, mods)
        }
    }
}

impl Buffer {
    /// Returns from a prompt to the mode that the configuration names.
    pub fn back(&mut self)
        requires
            old(self).wf(),
        ensures
            final(self).wf(),
            final(self)@ == old(self)@.back(),
    {
        self.mode = self.return_mode();
    }

    /// Enters navigation mode and makes it the mode that prompts return to.
    pub fn enter_nav(&mut self)
        requires
            old(self).wf(),
        ensures
            final(self).wf(),
            final(self)@ == old(self)@.enter_nav(),
    {
        self.mode = Mode::Nav;
        self.set_var("ret-to-nav", BimVar::Bool(true));
        self.temp_str.clear();
    }

    /// Switches the way in which line numbers are shown to the next one.
    pub fn cycle_line_numbers(&mut self)
        requires
            old(self).wf(),
        ensures
            old(self)@.fresh() ==> final(self)@.fresh(),
            final(self).wf(),
            final(self)@ == old(self)@.cycle_line_numbers(),
    {
        proof {
            reveal(BufferView::cycle_line_numbers);
        }
        let next: Option<&'static str> = match self.vars.get("line-num-type") {
            Some(BimVar::Str(x)) => {
                if str_eq(x.as_str(), "absolute") {
                    Some("relative")
                } else if str_eq(x.as_str(), "relative") {
                    Some("none")
                } else {
                    Some("absolute")
                }
            },
            _ => None,
        };
        match next {
            Some(name) => {
                self.set_var("line-num-type", BimVar::Str(String::from_str(name)));
            },
            None => {},
        }
    }

    /// Switches the status bar on or off.
    pub fn toggle_bottom_bar(&mut self)
        requires
            old(self).wf(),
        ensures
            old(self)@.fresh() ==> final(self)@.fresh(),
            final(self).wf(),
            final(self)@ == old(self)@.toggle_bottom_bar(),
    {
        proof {
            reveal(BufferView::toggle_bottom_bar);
        }
        let now: Option<bool> = match self.vars.get("showbottombar") {
            Some(BimVar::Bool(b)) => Some(*b),
            _ => None,
        };
        match now {
            Some(b) => {
                self.set_var("showbottombar", BimVar::Bool(!b));
            },
            None => {},
        }
    }

    /// Handles the Enter key outside navigation mode.
    pub fn press_enter(&mut self) -> (effect: Effect)
        requires
            old(self).wf(),
        ensures
            old(self)@.fresh() ==> final(self)@.fresh(),
            final(self).wf(),
            final(self)@ == old(self)@.press_enter(final(self).alert.time as int),
            effect@ == old(self)@.key_effect(Key::Enter, Mods::Plain),
    {
        proof {
            reveal(BufferView::press_enter);
            reveal(BufferView::saved);
        }
        match self.mode {
            Mode::Find | Mode::ReplaceStr | Mode::Tee => {
                self.back();
            },
            Mode::Indent => {
                self.close_prompt();
            },
            Mode::Switch => {
                self.mode = Mode::from_string(self.temp_str.as_str());
                self.temp_str.clear();
            },
            Mode::Goto => {
                self.commit_goto();
            },
            Mode::Copy => {
                self.commit_copy();
            },
            Mode::KillLines => {
                self.commit_kill();
            },
            Mode::OpenFile => {
                let w = self.save();
                let path = self.temp_str.clone();
                self.visit(path.as_str());
                return Effect::Reload(w, Resume::Opened);
            },
            Mode::Snippet => {
                self.commit_snippet();
            },
            _ => {
                self.enter_text();
            },
        }
        Effect::Nothing
    }

    /// Handles a key without modifiers outside navigation mode.
    pub fn key_plain(&mut self, key: Key) -> (effect: Effect)
        requires
            old(self).wf(),
        ensures
            old(self)@.fresh() ==> final(self)@.fresh(),
            final(self).wf(),
            final(self)@ == old(self)@.key_plain(key, final(self).alert.time as int),
            effect@ == old(self)@.key_effect(key, Mods::Plain),
    {
        proof {
            reveal(BufferView::key_plain);
        }
        match key {
            Key::Esc => {
                if self.nav_pro {
                    self.mode = Mode::Nav;
                } else {
                    self.mode = Mode::Default;
                }
            },
            Key::Backspace => {
                self.press_backspace();
            },
            Key::Delete => {
                self.press_delete();
            },
            Key::Enter => {
                return self.press_enter();
            },
            Key::BackTab => {
                self.back_tab();
            },
            Key::Char(c) => {
                self.press_char(c);
            },
            Key::Left => {
                let _ = self.move_left();
            },
            Key::Right => {
                let _ = self.move_right();
            },
            Key::Up => {
                let _ = self.move_up();
            },
            Key::Down => {
                let _ = self.move_down();
            },
            Key::Home => {
                self.cursor_pos.idx = 0;
            },
            Key::End => {
                self.end();
            },
            Key::Tab => {
                self.tab();
            },
            Key::Other => {},
        }
        Effect::Nothing
    }

    /// Handles the first half of the character keys with Alt.
    pub fn alt_char(&mut self, c: char, height: usize) -> (effect: Effect)
        requires
            old(self).wf(),
        ensures
            old(self)@.fresh() ==> final(self)@.fresh(),
            final(self).wf(),
            final(self)@ == old(self)@.alt_char(c, height as int, final(self).alert.time as int),
            effect@ == old(self)@.key_effect(Key::Char(c), Mods::Alt),
    {
        proof {
            reveal(BufferView::alt_char);
        }
        if c == 'q' {
            if self.buffer_history.hist.len() < 2 {
                return Effect::Quit;
            } else {
                self.leave();
                return Effect::Reload(None, Resume::Closed);
            }
        } else if c == 'Q' {
            return Effect::Quit;
        } else if c == 's' {
            return match self.save() {
                Some(w) => Effect::Write(w),
                None => Effect::Nothing,
            };
        } else if c == 'b' {
            self.goto_bottom();
        } else if c == 't' {
            self.goto_top();
        } else if c == 'c' {
            let _ = self.move_left();
        } else if c == 'i' {
            let _ = self.move_right();
        } else if c == 'e' {
            let _ = self.move_up();
        } else if c == 'a' {
            let _ = self.move_down();
        } else if c == 'u' {
            self.page_up(height);
        } else if c == 'd' {
            self.page_down(height);
        } else if c == 'l' {
            self.kill_line();
            self.update_highlighting();
        } else if c == ',' {
            self.dec_indent();
        } else if c == '.' {
            self.inc_indent();
        } else if c == 'I' {
            self.adjust_indent();
        } else if c == '<' {
            if self.mode != Mode::Indent {
                self.dedent();
            } else {
                self.commit_shift(true);
            }
        } else if c == '>' {
            if self.mode != Mode::Indent {
                self.indent();
            } else {
                self.commit_shift(false);
            }
        } else if c == ';' {
            self.adopt_indent();
        } else if c == ':' {
            self.measure_indent();
        } else if c == '/' {
            if self.mode == Mode::Find {
                self.back();
            } else {
                self.ask_find();
            }
        } else if c == 'n' {
            self.find_next();
        } else if c == 'p' {
            self.find_prev();
        } else if c == 'o' {
            proof {
                reveal_strlit("");
                assert(""@ =~= Seq::<char>::empty());
            }
            self.newline_below("");
        } else if c == 'O' {
            self.open_above();
        } else if c == 'x' || c == 'M' {
            self.prompt(Mode::Switch);
        } else if c == 'h' {
            self.replace_found();
        } else {
            self.alt_char_more(c);
        }
        Effect::Nothing
    }

    /// Handles the second half of the character keys with Alt.
    pub fn alt_char_more(&mut self, c: char)
        requires
            old(self).wf(),
        ensures
            old(self)@.fresh() ==> final(self)@.fresh(),
            final(self).wf(),
            final(self)@ == old(self)@.alt_char_more(c, final(self).alert.time as int),
    {
        proof {
            reveal(BufferView::alt_char_more);
        }
        if c == 'r' {
            if self.mode == Mode::ReplaceStr {
                self.back();
            } else {
                self.ask_replace();
            }
        } else if c == 'j' {
            self.join_lines();
        } else if c == '0' {
            self.indent_lvl = 0;
        } else if c == 'k' {
            self.kill_to_indent();
        } else if c == 'K' {
            self.kill_to_end();
        } else if c == 'w' {
            self.word_forward();
        } else if c == 'W' {
            self.word_back();
        } else if c == 'y' {
            self.dup_line();
            self.update_highlighting();
        } else if c == 'Y' {
            self.begin_range(Mode::Copy);
        } else if c == 'C' {
            self.begin_range(Mode::KillLines);
        } else if c == 'A' {
            let count: usize = self.contents.len();
            if count - self.cursor_pos.line > 1 {
                self.swap_down();
                self.update_highlighting();
            }
        } else if c == 'E' {
            if self.cursor_pos.line != 0 {
                self.swap_up();
                self.update_highlighting();
            }
        } else if c == 'G' {
            self.prompt(Mode::Goto);
        } else if c == 'S' {
            self.prompt(Mode::Snippet);
        } else if c == '[' {
            self.paragraph_up();
        } else if c == ']' {
            self.paragraph_down();
        } else if c == 'N' || c == 'v' {
            self.enter_nav();
        } else if c == '-' {
            let nothing: Vec<String> = Vec::new();
            assert(lines_view(nothing@) =~= Seq::<Seq<char>>::empty());
            self.raise(nothing.as_slice(), 1_000_000);
        } else if c == 'T' {
            self.mode = Mode::Tee;
            self.replace_str.clear();
        } else if is_numeric(c) {
            if c == '1' {
                self.pick(0);
            } else if c == '2' {
                self.pick(1);
            } else if c == '3' {
                self.pick(2);
            } else if c == '4' {
                self.pick(3);
            } else if c == '5' {
                self.pick(4);
            } else if c == '6' {
                self.list_candidates();
            }
        } else if c == 'U' {
            self.begin_range(Mode::Indent);
        }
    }

    /// Handles a key with Control outside navigation mode.
    pub fn key_ctrl(&mut self, key: Key) -> (effect: Effect)
        requires
            old(self).wf(),
        ensures
            old(self)@.fresh() ==> final(self)@.fresh(),
            final(self).wf(),
            final(self)@ == old(self)@.key_ctrl(key, final(self).alert.time as int),
            effect@ == old(self)@.key_effect(key, Mods::Ctrl),
    {
        proof {
            reveal(BufferView::key_ctrl);
            reveal(BufferView::saved);
        }
        match key {
            Key::Backspace => {
                self.kill_word();
            },
            Key::Char(c) => {
                if c == 'N' {
                    self.enter_nav();
                } else if c == 'r' {
                    return Effect::Reload(None, Resume::Restarted);
                } else if c == 'z' {
                    return Effect::Reload(None, Resume::Reloaded);
                } else if c == 'o' {
                    self.prompt(Mode::OpenFile);
                } else if c == 'y' {
                    self.scroll_down();
                } else if c == 'e' {
                    self.scroll_up();
                } else if c == 'b' {
                    let lines = self.buffer_history.display();
                    self.raise(lines.as_slice(), 5_000_000);
                } else if c == 'p' {
                    let head: usize = if self.buffer_history.head == 0 {
                        self.buffer_history.hist.len() - 1
                    } else {
                        self.buffer_history.head - 1
                    };
                    let w = self.save();
                    self.switch_to(head);
                    return Effect::Reload(w, Resume::Cycled);
                } else if c == 'n' {
                    let count: usize = self.buffer_history.hist.len();
                    let head: usize = if count - self.buffer_history.head <= 1 {
                        0
                    } else {
                        self.buffer_history.head + 1
                    };
                    let w = self.save();
                    self.switch_to(head);
                    return Effect::Reload(w, Resume::Cycled);
                }
            },
            _ => {},
        }
        Effect::Nothing
    }
}

/// Handles a key outside navigation mode, on a screen of `height` lines.
/// Returns what is left to the caller.
pub fn handle_key(buf: &mut Buffer, key: Key, modifiers: &Mods, height: usize) -> (effect: Effect)
    requires
        old(buf).wf(),
    ensures
        old(buf)@.fresh() ==> final(buf)@.fresh(),
        final(buf).wf(),
        final(buf)@ == old(buf)@.key_step(
            key,
            *modifiers,
            height as int,
            final(buf).alert.time as int,
        ),
        effect@ == old(buf)@.key_effect(key, *modifiers),
{
    match modifiers {
        Mods::Plain => buf.key_plain(key),
        Mods::Alt => match key {
            Key::Char(c) => buf.alt_char(c, height),
            Key::End => {
                buf.goto_bottom();
                Effect::Nothing
            },
            Key::Home => {
                buf.goto_top();
                Effect::Nothing
            },
            _ => Effect::Nothing,
        },
        Mods::Ctrl => buf.key_ctrl(key),
        Mods::CtrlAlt => {
            match key {
                Key::Char(c) => {
                    if c == 'L' {
                        buf.cycle_line_numbers();
                    } else if c == 'B' {
                        buf.toggle_bottom_bar();
                    }
                },
                _ => {},
            }
            Effect::Nothing
        },
    }
}

/// Handles one key press: by the table of navigation mode where the buffer
/// is in that mode, else by the table of the other modes. Returns what is
/// left to the caller: nothing, to leave the editor, to write a file, or to
/// read the file of the buffer and call `Buffer::resume`.
pub fn handle_event(
    buf: &mut Buffer,
    key: Key,
    modifiers: &Mods,
    height: usize,
    width: usize,
) -> (effect: Effect)
    requires
        old(buf).wf(),
    ensures
        old(buf)@.fresh() ==> final(buf)@.fresh(),
        final(buf).wf(),
        final(buf)@ == old(buf)@.step(key, *modifiers, height as int, final(buf).alert.time as int),
        effect@ == old(buf)@.effect(key, *modifiers),
{
    if buf.mode == Mode::Nav {
        handle_nav(buf, key, modifiers, height, width)
    } else {
        handle_key(buf, key, modifiers, height)
    }
}

} // verus!
