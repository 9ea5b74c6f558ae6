//! The editing commands that keys are bound to, built from the primitives
//! of the buffer. Every command keeps the invariant of the buffer.

use crate::buffer::{least, Buffer, BufferView, Mode, INDENT_LVL_MAX};
use crate::numbers::{decimal, push_decimal};
use crate::text::{leading_spaces, skip_whitespace, skip_whitespace_back, spaces, trim, trim_end};
use vstd::prelude::*;

verus! {

impl BufferView {
    /// The indent depth one deeper, up to its limit.
    pub open spec fn inc_indent(self) -> BufferView {
        if self.indent_lvl < INDENT_LVL_MAX {
            BufferView { indent_lvl: self.indent_lvl + 1, ..self }
        } else {
            self
        }
    }

    /// The indent depth one shallower, down to 0.
    pub open spec fn dec_indent(self) -> BufferView {
        if self.indent_lvl != 0 {
            BufferView { indent_lvl: self.indent_lvl - 1, ..self }
        } else {
            self
        }
    }

    /// The cursor at the start of the last line.
    pub open spec fn goto_bottom(self) -> BufferView {
        self.at(self.lines.len() - 1, 0)
    }

    /// The cursor at the start of the text.
    pub open spec fn goto_top(self) -> BufferView {
        self.at(0, 0)
    }

    /// The cursor at the start of its line.
    pub open spec fn home(self) -> BufferView {
        self.at_col(0)
    }

    /// The cursor at the end of its line.
    pub open spec fn end(self) -> BufferView {
        self.at_col(self.cur().len() as int)
    }

    /// The cursor on line `line`, at its column or at the end of a shorter line.
    pub open spec fn to_line(self, line: int) -> BufferView {
        self.at(line, least(self.idx, self.lines[line].len() as int))
    }

    /// The cursor `height` lines up, or on the first line.
    #[verifier::opaque]
    pub open spec fn page_up(self, height: int) -> BufferView {
        if self.line >= height {
            self.to_line(self.line - height)
        } else {
            self.to_line(0)
        }
    }

    /// The cursor `height` lines down, or on the last line.
    #[verifier::opaque]
    pub open spec fn page_down(self, height: int) -> BufferView {
        if self.line + height >= self.lines.len() {
            self.to_line(self.lines.len() - 1)
        } else {
            self.to_line(self.line + height)
        }
    }

    /// The line of the cursor taken out; the only line of a text is emptied.
    /// The cursor stands at the start of the line that follows, or of the
    /// last line.
    #[verifier::opaque]
    pub open spec fn kill_line(self) -> BufferView {
        if self.lines.len() == 1 {
            self.with_line(0, Seq::empty()).at(0, 0)
        } else {
            self.with_lines(self.lines.remove(self.line)).at(
                least(self.line, self.lines.len() - 2),
                0,
            )
        }
    }

    /// A copy of the line of the cursor put in above it; the cursor stays on
    /// the line that it was on, which is now one further down.
    #[verifier::opaque]
    pub open spec fn dup_line(self) -> BufferView {
        self.with_lines(self.lines.insert(self.line, self.cur())).move_down()
    }

    /// The lines `i` and `j` exchanged.
    pub open spec fn swap_lines(self, i: int, j: int) -> BufferView {
        self.with_lines(self.lines.update(i, self.lines[j]).update(j, self.lines[i]))
    }

    /// The line of the cursor exchanged with the line below, where there is
    /// one, and the cursor moved down.
    #[verifier::opaque]
    pub open spec fn swap_down(self) -> BufferView {
        if self.line + 1 < self.lines.len() {
            self.swap_lines(self.line, self.line + 1).clamp().move_down()
        } else {
            self
        }
    }

    /// The line of the cursor exchanged with the line above, where there is
    /// one, and the cursor moved up.
    #[verifier::opaque]
    pub open spec fn swap_up(self) -> BufferView {
        if self.line != 0 {
            self.swap_lines(self.line, self.line - 1).clamp().move_up()
        } else {
            self
        }
    }

    /// An empty indented line opened above the cursor, which moves to it.
    /// On the first line the new line is not indented.
    #[verifier::opaque]
    pub open spec fn open_above(self) -> BufferView {
        if self.line != 0 {
            self.move_up().newline_below(Seq::empty())
        } else {
            self.with_lines(self.lines.insert(0, Seq::empty())).at(
                0,
                0,
            ).update_highlighting()
        }
    }

    /// The characters before the cursor, as many as the search string has,
    /// replaced by the replacement string.
    #[verifier::opaque]
    pub open spec fn replace_found(self) -> BufferView {
        let from = if self.idx >= self.find_str.len() {
            self.idx - self.find_str.len()
        } else {
            0
        };
        self.with_line(
            self.line,
            self.cur().subrange(0, from) + self.replace_str + self.cur().subrange(
                self.idx,
                self.cur().len() as int,
            ),
        ).clamp().update_highlighting()
    }

    /// The indent depth read off the line of the cursor: the number of its
    /// leading spaces in indent steps, up to the limit of the depth.
    pub open spec fn measured_indent(self) -> int {
        least(leading_spaces(self.cur()) as int / self.indent_size(), INDENT_LVL_MAX as int)
    }

    /// The indent depth set from the line of the cursor, and the cursor put
    /// behind the leading spaces.
    #[verifier::opaque]
    pub open spec fn adopt_indent(self) -> BufferView {
        BufferView {
            indent_lvl: self.measured_indent(),
            idx: leading_spaces(self.cur()) as int,
            ..self
        }
    }

    /// The indent depth set from the line of the cursor.
    #[verifier::opaque]
    pub open spec fn measure_indent(self) -> BufferView {
        BufferView { indent_lvl: self.measured_indent(), ..self }
    }

    /// The line of the cursor shifted one indent step to the left: the depth
    /// falls by one unless it is 0, the cursor moves left by one step where
    /// it can, and the line is indented anew.
    #[verifier::opaque]
    pub open spec fn dedent(self) -> BufferView {
        if self.indent_lvl != 0 {
            let moved = if self.idx >= self.indent_size() {
                self.idx - self.indent_size()
            } else {
                self.idx
            };
            self.dec_indent().at_col(moved).adjust_indent()
        } else {
            self.adjust_indent()
        }
    }

    /// The line of the cursor shifted one indent step to the right: the
    /// depth grows by one, the line is indented anew and the cursor moves
    /// right by one step, up to the end of the line.
    #[verifier::opaque]
    pub open spec fn indent(self) -> BufferView {
        let shifted = self.inc_indent().adjust_indent();
        shifted.at_col(least(shifted.idx + self.indent_size(), shifted.cur().len() as int))
    }

    /// One indent step of spaces put in at the cursor, which moves behind
    /// them, and the depth grown by one.
    #[verifier::opaque]
    pub open spec fn tab(self) -> BufferView {
        self.with_line(
            self.line,
            self.cur().subrange(0, self.idx) + spaces(self.indent_size() as nat)
                + self.cur().subrange(self.idx, self.cur().len() as int),
        ).at_col(self.idx + self.indent_size()).inc_indent().update_highlighting()
    }

    /// `n` times `fast_backspace`.
    pub open spec fn erase(self, n: nat) -> BufferView
        decreases n,
    {
        if n == 0 {
            self
        } else {
            self.erase((n - 1) as nat).fast_backspace()
        }
    }

    /// Unless the depth is 0: the depth one shallower, and one indent step
    /// of characters removed left of the cursor.
    #[verifier::opaque]
    pub open spec fn back_tab(self) -> BufferView {
        if self.indent_lvl > 0 {
            self.dec_indent().erase(self.indent_size() as nat).update_highlighting()
        } else {
            self
        }
    }

    /// The line below joined to the line of the cursor: the line without its
    /// trailing whitespace, a space, and the line below trimmed.
    #[verifier::opaque]
    pub open spec fn join_lines(self) -> BufferView {
        if self.lines.len() > self.line + 1 {
            self.with_lines(
                self.lines.remove(self.line + 1).update(
                    self.line,
                    trim_end(self.cur()) + seq![' '] + trim(self.lines[self.line + 1]),
                ),
            ).clamp().update_highlighting()
        } else {
            self.update_highlighting()
        }
    }

    /// What stands between the indent and the cursor removed, where the
    /// cursor stands behind the indent.
    #[verifier::opaque]
    pub open spec fn kill_to_indent(self) -> BufferView {
        if self.indent_width() < self.idx {
            self.with_line(
                self.line,
                self.cur().subrange(0, self.indent_width()) + self.cur().subrange(
                    self.idx,
                    self.cur().len() as int,
                ),
            ).at_col(self.indent_width()).update_highlighting()
        } else {
            self
        }
    }

    /// The line cut off at the cursor.
    #[verifier::opaque]
    pub open spec fn kill_to_end(self) -> BufferView {
        self.with_line(self.line, self.cur().subrange(0, self.idx)).update_highlighting()
    }

    /// The mode `mode` entered to type a line range: the accumulator is
    /// emptied on entering, and the number of the line of the cursor and a
    /// space are added to it.
    #[verifier::opaque]
    pub open spec fn begin_range(self, mode: Mode) -> BufferView {
        let start = if self.mode != mode {
            Seq::empty()
        } else {
            self.temp_str
        };
        BufferView {
            mode: mode,
            temp_str: start + decimal((self.line + 1) as nat) + seq![' '],
            ..self
        }
    }
}

impl Buffer {
    /// Makes the indent depth one deeper, up to its limit.
    pub fn inc_indent(&mut self)
        ensures
            final(self)@ == old(self)@.inc_indent(),
    {
        if self.indent_lvl < INDENT_LVL_MAX {
            self.indent_lvl += 1;
        }
    }

    /// Makes the indent depth one shallower, down to 0.
    pub fn dec_indent(&mut self)
        ensures
            final(self)@ == old(self)@.dec_indent(),
    {
        if self.indent_lvl != 0 {
            self.indent_lvl -= 1;
        }
    }

    /// Pulls the cursor back to the end of its line where it stands beyond it.
    pub fn clamp(&mut self)
        requires
            old(self).cursor_pos.line < old(self)@.lines.len(),
        ensures
            final(self)@ == old(self)@.clamp(),
    {
        let len = self.line_len(self.cursor_pos.line);
        if self.cursor_pos.idx > len {
            self.cursor_pos.idx = len;
        }
    }

    /// Puts the cursor at the start of the last line.
    pub fn goto_bottom(&mut self)
        requires
            old(self).wf(),
        ensures
            final(self).wf(),
            final(self)@ == old(self)@.goto_bottom(),
    {
        self.cursor_pos.line = self.contents.len() - 1;
        self.cursor_pos.idx = 0;
    }

    /// Puts the cursor at the start of the text.
    pub fn goto_top(&mut self)
        requires
            old(self).wf(),
        ensures
            final(self).wf(),
            final(self)@ == old(self)@.goto_top(),
    {
        self.cursor_pos.line = 0;
        self.cursor_pos.idx = 0;
    }

    /// Puts the cursor at the end of its line.
    pub fn end(&mut self)
        requires
            old(self).wf(),
        ensures
            final(self).wf(),
            final(self)@ == old(self)@.end(),
    {
        self.cursor_pos.idx = self.line_len(self.cursor_pos.line);
    }

    /// Puts the cursor on line `line`, at its column or at the end of a
    /// shorter line.
    pub fn to_line(&mut self, line: usize)
        requires
            old(self).wf(),
            line < old(self)@.lines.len(),
        ensures
            final(self).wf(),
            final(self)@ == old(self)@.to_line(line as int),
    {
        self.cursor_pos.line = line;
        self.clamp();
    }

    /// Moves the cursor `height` lines up, or to the first line.
    pub fn page_up(&mut self, height: usize)
        requires
            old(self).wf(),
        ensures
            old(self)@.fresh() ==> final(self)@.fresh(),
            final(self).wf(),
            final(self)@ == old(self)@.page_up(height as int),
    {
        proof {
            reveal(BufferView::page_up);
        }
        if self.cursor_pos.line >= height {
            self.to_line(self.cursor_pos.line - height);
        } else {
            self.to_line(0);
        }
    }

    /// Moves the cursor `height` lines down, or to the last line.
    pub fn page_down(&mut self, height: usize)
        requires
            old(self).wf(),
        ensures
            old(self)@.fresh() ==> final(self)@.fresh(),
            final(self).wf(),
            final(self)@ == old(self)@.page_down(height as int),
    {
        proof {
            reveal(BufferView::page_down);
        }
        let count: usize = self.contents.len();
        if height >= count - self.cursor_pos.line {
            self.to_line(count - 1);
        } else {
            self.to_line(self.cursor_pos.line + height);
        }
    }

    /// Takes the line of the cursor out of the text; the only line of a text
    /// is emptied. The grid is not recomputed.
    pub fn kill_line(&mut self)
        requires
            old(self).wf(),
        ensures
            final(self).wf(),
            final(self)@ == old(self)@.kill_line(),
    {
        proof {
            reveal(BufferView::kill_line);
        }
        if self.contents.len() == 1 {
            let empty: Vec<char> = Vec::new();
            self.set_line(0, &empty);
            self.cursor_pos.idx = 0;
        } else {
            assert(old(self)@.lines.len() >= 2);
            self.remove_line(self.cursor_pos.line);
            self.cursor_pos.idx = 0;
            let count: usize = self.contents.len();
            assert(count == self@.lines.len());
            if self.cursor_pos.line >= count {
                self.cursor_pos.line = count - 1;
            }
        }
    }

    /// Puts a copy of the line of the cursor in above it, and moves the
    /// cursor down. The grid is not recomputed.
    pub fn dup_line(&mut self)
        requires
            old(self).wf(),
        ensures
            final(self).wf(),
            final(self)@ == old(self)@.dup_line(),
    {
        proof {
            reveal(BufferView::dup_line);
        }
        let chars = self.line_chars(self.cursor_pos.line);
        self.insert_line(self.cursor_pos.line, &chars);
        let _ = self.move_down();
    }

    /// Exchanges the lines `i` and `j`.
    pub fn swap_lines(&mut self, i: usize, j: usize)
        requires
            i < old(self)@.lines.len(),
            j < old(self)@.lines.len(),
        ensures
            final(self)@ == old(self)@.swap_lines(i as int, j as int),
    {
        let a = self.line_chars(i);
        let b = self.line_chars(j);
        self.set_line(i, &b);
        self.set_line(j, &a);
    }

    /// Exchanges the line of the cursor with the line below, where there is
    /// one, and moves the cursor down. The grid is not recomputed.
    pub fn swap_down(&mut self)
        requires
            old(self).wf(),
        ensures
            final(self).wf(),
            final(self)@ == old(self)@.swap_down(),
    {
        proof {
            reveal(BufferView::swap_down);
        }
        let count: usize = self.contents.len();
        if self.cursor_pos.line + 1 < count {
            self.swap_lines(self.cursor_pos.line, self.cursor_pos.line + 1);
            self.clamp();
            let _ = self.move_down();
        }
    }

    /// Exchanges the line of the cursor with the line above, where there is
    /// one, and moves the cursor up. The grid is not recomputed.
    pub fn swap_up(&mut self)
        requires
            old(self).wf(),
        ensures
            final(self).wf(),
            final(self)@ == old(self)@.swap_up(),
    {
        proof {
            reveal(BufferView::swap_up);
        }
        if self.cursor_pos.line != 0 {
            self.swap_lines(self.cursor_pos.line, self.cursor_pos.line - 1);
            self.clamp();
            let _ = self.move_up();
        }
    }

    /// Opens an empty indented line above the cursor and moves the cursor to it.
    pub fn open_above(&mut self)
        requires
            old(self).wf(),
        ensures
            old(self)@.fresh() ==> final(self)@.fresh(),
            final(self).wf(),
            final(self)@ == old(self)@.open_above(),
    {
        proof {
            reveal(BufferView::open_above);
        }
        if self.move_up() {
            proof {
                reveal_strlit("");
                assert(""@ =~= Seq::<char>::empty());
            }
            self.newline_below("");
        } else {
            let empty: Vec<char> = Vec::new();
            self.insert_line(0, &empty);
            self.cursor_pos.idx = 0;
            self.update_highlighting();
        }
    }

    /// Replaces the characters `from..to` of the line of the cursor by
    /// `with`, and returns the length that the line has now.
    pub fn splice(&mut self, from: usize, to: usize, with: &Vec<char>) -> (len: usize)
        requires
            old(self).cursor_pos.line < old(self)@.lines.len(),
            from <= to <= old(self)@.lines[old(self)@.line].len(),
        ensures
            len == final(self)@.cur().len(),
            final(self)@ == old(self)@.with_line(
                old(self)@.line,
                old(self)@.cur().subrange(0, from as int) + with@ + old(self)@.cur().subrange(
                    to as int,
                    old(self)@.cur().len() as int,
                ),
            ),
    {
        let chars = self.line_chars(self.cursor_pos.line);
        let mut line: Vec<char> = Vec::new();
        let mut i: usize = 0;
        while i < from
            invariant
                i <= from <= chars.len(),
                line@ == chars@.subrange(0, i as int),
            decreases from - i,
        {
            line.push(chars[i]);
            i += 1;
            assert(line@ =~= chars@.subrange(0, i as int));
        }
        let mut k: usize = 0;
        assert(line@ + with@.subrange(0, 0) =~= line@);
        while k < with.len()
            invariant
                k <= with.len(),
                line@ == chars@.subrange(0, from as int) + with@.subrange(0, k as int),
            decreases with.len() - k,
        {
            line.push(with[k]);
            k += 1;
            assert(line@ =~= chars@.subrange(0, from as int) + with@.subrange(0, k as int));
        }
        assert(with@.subrange(0, with@.len() as int) =~= with@);
        let mut m: usize = to;
        assert(line@ + chars@.subrange(to as int, to as int) =~= line@);
        while m < chars.len()
            invariant
                to <= m <= chars.len(),
                line@ == chars@.subrange(0, from as int) + with@ + chars@.subrange(
                    to as int,
                    m as int,
                ),
            decreases chars.len() - m,
        {
            line.push(chars[m]);
            m += 1;
            assert(line@ =~= chars@.subrange(0, from as int) + with@ + chars@.subrange(
                to as int,
                m as int,
            ));
        }
        self.set_line(self.cursor_pos.line, &line);
        line.len()
    }

    /// Replaces the characters before the cursor, as many as the search
    /// string has, by the replacement string.
    pub fn replace_found(&mut self)
        requires
            old(self).wf(),
        ensures
            old(self)@.fresh() ==> final(self)@.fresh(),
            final(self).wf(),
            final(self)@ == old(self)@.replace_found(),
    {
        proof {
            reveal(BufferView::replace_found);
        }
        let found: usize = self.find_str.as_str().unicode_len();
        let from: usize = if self.cursor_pos.idx >= found {
            self.cursor_pos.idx - found
        } else {
            0
        };
        let with = crate::text::to_chars(self.replace_str.as_str());
        let _ = self.splice(from, self.cursor_pos.idx, &with);
        self.clamp();
        self.update_highlighting();
    }

    /// The indent depth read off the line of the cursor, and the number of
    /// its leading spaces.
    pub fn measured_indent(&self) -> (r: (usize, usize))
        requires
            self.wf(),
        ensures
            r.0 == self@.measured_indent(),
            r.1 == leading_spaces(self@.cur()),
            r.1 <= self@.cur().len(),
            r.0 <= INDENT_LVL_MAX,
    {
        let count = crate::text::count_leading_spaces(self.contents[self.cursor_pos.line].as_str());
        let depth: usize = count / self.indent_size();
        if depth > INDENT_LVL_MAX {
            (INDENT_LVL_MAX, count)
        } else {
            (depth, count)
        }
    }

    /// Sets the indent depth from the line of the cursor and puts the cursor
    /// behind the leading spaces.
    pub fn adopt_indent(&mut self)
        requires
            old(self).wf(),
        ensures
            old(self)@.fresh() ==> final(self)@.fresh(),
            final(self).wf(),
            final(self)@ == old(self)@.adopt_indent(),
    {
        proof {
            reveal(BufferView::adopt_indent);
        }
        let (depth, count) = self.measured_indent();
        self.indent_lvl = depth;
        self.cursor_pos.idx = count;
    }

    /// Sets the indent depth from the line of the cursor.
    pub fn measure_indent(&mut self)
        requires
            old(self).wf(),
        ensures
            old(self)@.fresh() ==> final(self)@.fresh(),
            final(self).wf(),
            final(self)@ == old(self)@.measure_indent(),
    {
        proof {
            reveal(BufferView::measure_indent);
        }
        let (depth, _) = self.measured_indent();
        self.indent_lvl = depth;
    }

    /// Shifts the line of the cursor one indent step to the left.
    pub fn dedent(&mut self)
        requires
            old(self).wf(),
        ensures
            old(self)@.fresh() ==> final(self)@.fresh(),
            final(self).wf(),
            final(self)@ == old(self)@.dedent(),
    {
        proof {
            reveal(BufferView::dedent);
        }
        if self.indent_lvl != 0 {
            self.indent_lvl -= 1;
            let size = self.indent_size();
            if self.cursor_pos.idx >= size {
                self.cursor_pos.idx -= size;
            }
        }
        self.adjust_indent();
    }

    /// Shifts the line of the cursor one indent step to the right.
    pub fn indent(&mut self)
        requires
            old(self).wf(),
        ensures
            old(self)@.fresh() ==> final(self)@.fresh(),
            final(self).wf(),
            final(self)@ == old(self)@.indent(),
    {
        proof {
            reveal(BufferView::indent);
        }
        self.inc_indent();
        self.adjust_indent();
        let size = self.indent_size();
        let len = self.line_len(self.cursor_pos.line);
        if size >= len - self.cursor_pos.idx {
            self.cursor_pos.idx = len;
        } else {
            self.cursor_pos.idx += size;
        }
    }

    /// Puts one indent step of spaces in at the cursor, moves the cursor
    /// behind them and makes the depth one deeper.
    pub fn tab(&mut self)
        requires
            old(self).wf(),
        ensures
            old(self)@.fresh() ==> final(self)@.fresh(),
            final(self).wf(),
            final(self)@ == old(self)@.tab(),
    {
        proof {
            reveal(BufferView::tab);
        }
        let size = self.indent_size();
        let mut pad: Vec<char> = Vec::new();
        let mut k: usize = 0;
        while k < size
            invariant
                k <= size,
                pad@ == spaces(k as nat),
            decreases size - k,
        {
            pad.push(' ');
            k += 1;
            assert(pad@ =~= spaces(k as nat));
        }
        let idx = self.cursor_pos.idx;
        let len = self.splice(idx, idx, &pad);
        assert(idx + size <= len);
        self.cursor_pos.idx = idx + size;
        self.inc_indent();
        self.update_highlighting();
    }

    /// Unless the depth is 0: makes the depth one shallower and removes one
    /// indent step of characters left of the cursor.
    pub fn back_tab(&mut self)
        requires
            old(self).wf(),
        ensures
            old(self)@.fresh() ==> final(self)@.fresh(),
            final(self).wf(),
            final(self)@ == old(self)@.back_tab(),
    {
        proof {
            reveal(BufferView::back_tab);
        }
        if self.indent_lvl > 0 {
            self.indent_lvl -= 1;
            let size = self.indent_size();
            let ghost start = self@;
            let mut k: usize = 0;
            while k < size
                invariant
                    k <= size,
                    self.wf(),
                    self@ == start.erase(k as nat),
                decreases size - k,
            {
                let _ = self.fast_backspace();
                k += 1;
            }
            self.update_highlighting();
        }
    }

    /// Joins the line below to the line of the cursor, a single space
    /// between them.
    pub fn join_lines(&mut self)
        requires
            old(self).wf(),
        ensures
            old(self)@.fresh() ==> final(self)@.fresh(),
            final(self).wf(),
            final(self)@ == old(self)@.join_lines(),
    {
        proof {
            reveal(BufferView::join_lines);
        }
        let count: usize = self.contents.len();
        let line = self.cursor_pos.line;
        if count - line > 1 {
            let below = self.line_chars(line + 1);
            let current = self.line_chars(line);
            self.remove_line(line + 1);
            let end = skip_whitespace_back(&current, 0, current.len());
            let from = skip_whitespace(&below, 0);
            let to = skip_whitespace_back(&below, from, below.len());
            assert(current@.subrange(0, current.len() as int) =~= current@);
            assert(below@.subrange(0, below.len() as int) =~= below@);
            let mut joined: Vec<char> = Vec::new();
            let mut i: usize = 0;
            while i < end
                invariant
                    i <= end <= current.len(),
                    joined@ == current@.subrange(0, i as int),
                decreases end - i,
            {
                joined.push(current[i]);
                i += 1;
                assert(joined@ =~= current@.subrange(0, i as int));
            }
            joined.push(' ');
            let ghost head = joined@;
            let mut k: usize = from;
            assert(head + below@.subrange(from as int, from as int) =~= head);
            while k < to
                invariant
                    from <= k <= to <= below.len(),
                    joined@ == head + below@.subrange(from as int, k as int),
                decreases to - k,
            {
                joined.push(below[k]);
                k += 1;
                assert(joined@ =~= head + below@.subrange(from as int, k as int));
            }
            assert(joined@ =~= trim_end(current@) + seq![' '] + trim(below@));
            self.set_line(line, &joined);
            self.clamp();
        }
        self.update_highlighting();
    }

    /// Removes what stands between the indent and the cursor, where the
    /// cursor stands behind the indent.
    pub fn kill_to_indent(&mut self)
        requires
            old(self).wf(),
        ensures
            old(self)@.fresh() ==> final(self)@.fresh(),
            final(self).wf(),
            final(self)@ == old(self)@.kill_to_indent(),
    {
        proof {
            reveal(BufferView::kill_to_indent);
        }
        let width = self.indent_width();
        if width < self.cursor_pos.idx {
            let nothing: Vec<char> = Vec::new();
            let _ = self.splice(width, self.cursor_pos.idx, &nothing);
            let ghost head = old(self)@.cur().subrange(0, width as int);
            assert(head + nothing@ =~= head);
            self.cursor_pos.idx = width;
            self.update_highlighting();
        }
    }

    /// Cuts the line off at the cursor.
    pub fn kill_to_end(&mut self)
        requires
            old(self).wf(),
        ensures
            old(self)@.fresh() ==> final(self)@.fresh(),
            final(self).wf(),
            final(self)@ == old(self)@.kill_to_end(),
    {
        proof {
            reveal(BufferView::kill_to_end);
        }
        let mut chars = self.line_chars(self.cursor_pos.line);
        chars.truncate(self.cursor_pos.idx);
        self.set_line(self.cursor_pos.line, &chars);
        self.update_highlighting();
    }

    /// Enters `mode` to type a line range, and adds the number of the line
    /// of the cursor and a space to the accumulator.
    pub fn begin_range(&mut self, mode: Mode)
        requires
            old(self).wf(),
        ensures
            old(self)@.fresh() ==> final(self)@.fresh(),
            final(self).wf(),
            final(self)@ == old(self)@.begin_range(mode),
    {
        proof {
            reveal(BufferView::begin_range);
        }
        if self.mode != mode {
            self.mode = mode;
            self.temp_str.clear();
        }
        let ghost start = self.temp_str@;
        assert(self.contents.len() == self.contents@.len());
        push_decimal(&mut self.temp_str, (self.cursor_pos.line + 1) as u128);
        self.temp_str.push(' ');
        assert(self.temp_str@ =~= start + decimal((old(self)@.line + 1) as nat) + seq![' ']);
    }
}

} // verus!
