//! Cursor motions that look at the text: by word, by paragraph and by
//! search, and the command that erases a word.

use crate::buffer::{Buffer, BufferView};
use crate::text::{
    find_from, find_from_exec, is_alphanumeric, is_whitespace, rfind_before, rfind_before_exec,
    to_chars, unicode_alphanumeric, unicode_whitespace,
};
use vstd::prelude::*;

verus! {

impl BufferView {
    /// Whether the cursor stands on whitespace or at the end of its line.
    pub open spec fn blank(self) -> bool {
        self.idx >= self.cur().len() || unicode_whitespace(self.cur()[self.idx])
    }

    /// The cursor moved right for as long as it stands on a blank.
    pub open spec fn skip_blank_fwd(self) -> BufferView
        decreases self.lines.len() - self.line, self.cur().len() - self.idx,
        when self.wf()
    {
        if self.blank() && self.can_move_right() {
            self.move_right().skip_blank_fwd()
        } else {
            self
        }
    }

    /// The cursor moved right for as long as it stands on a character of a word.
    pub open spec fn skip_word_fwd(self) -> BufferView
        decreases self.lines.len() - self.line, self.cur().len() - self.idx,
        when self.wf()
    {
        if !self.blank() && self.can_move_right() {
            self.move_right().skip_word_fwd()
        } else {
            self
        }
    }

    /// The cursor moved left for as long as it stands on a blank.
    pub open spec fn skip_blank_back(self) -> BufferView
        decreases self.line, self.idx,
        when self.wf()
    {
        if self.blank() && self.can_move_left() {
            self.move_left().skip_blank_back()
        } else {
            self
        }
    }

    /// The cursor moved left for as long as it stands on a character of a word.
    pub open spec fn skip_word_back(self) -> BufferView
        decreases self.line, self.idx,
        when self.wf()
    {
        if !self.blank() && self.can_move_left() {
            self.move_left().skip_word_back()
        } else {
            self
        }
    }

    /// The cursor behind the next word: over blanks, over the word, and one
    /// step more unless that step leads to the start of a line.
    #[verifier::opaque]
    pub open spec fn word_forward(self) -> BufferView {
        let stepped = self.skip_blank_fwd().skip_word_fwd().move_right();
        if stepped.idx == 0 {
            stepped.move_left()
        } else {
            stepped
        }
    }

    /// The cursor before the word to its left: back over blanks and over the word.
    #[verifier::opaque]
    pub open spec fn word_back(self) -> BufferView {
        self.skip_blank_back().skip_word_back()
    }

    /// The cursor behind the first occurrence of `pat` at or after it: in
    /// its line from its column on, else in the lines below. Where there is
    /// none the cursor ends at the start of the last line, or stays where
    /// it is on the last line.
    pub open spec fn seek(self, pat: Seq<char>) -> BufferView
        decreases self.lines.len() - self.line,
        when self.wf()
    {
        match find_from(self.cur(), pat, self.idx) {
            Some(q) => self.at_col(q + pat.len()),
            None => if self.line + 1 != self.lines.len() {
                self.at(self.line + 1, 0).seek(pat)
            } else {
                self
            },
        }
    }

    /// The cursor behind the next occurrence of `pat` after the character
    /// that it stands on.
    #[verifier::opaque]
    pub open spec fn seek_next(self, pat: Seq<char>) -> BufferView {
        if self.can_move_right() {
            self.move_right().seek(pat)
        } else {
            self
        }
    }

    /// The cursor behind the last occurrence of `pat` that lies before it:
    /// in its line before its column, else in the lines above. Where there
    /// is none the cursor ends at the end of the first line, or stays where
    /// it is on the first line.
    pub open spec fn seek_back(self, pat: Seq<char>) -> BufferView
        decreases self.line,
        when self.wf()
    {
        match rfind_before(self.cur(), pat, self.idx) {
            Some(q) => self.at_col(q + pat.len()),
            None => if self.line != 0 {
                self.at(self.line - 1, self.lines[self.line - 1].len() as int).seek_back(pat)
            } else {
                self
            },
        }
    }

    /// The cursor behind the last occurrence of `pat` before the character
    /// left of it.
    #[verifier::opaque]
    pub open spec fn seek_prev(self, pat: Seq<char>) -> BufferView {
        if self.can_move_left() {
            self.move_left().seek_back(pat)
        } else {
            self
        }
    }

    /// The cursor behind the next occurrence of the search string.
    #[verifier::opaque]
    pub open spec fn find_next(self) -> BufferView {
        self.seek_next(self.find_str)
    }

    /// The cursor behind the previous occurrence of the search string.
    #[verifier::opaque]
    pub open spec fn find_prev(self) -> BufferView {
        self.seek_prev(self.find_str)
    }

    /// The first line at or above `line` that is not empty, or line 0.
    pub open spec fn above_blanks(self, line: int) -> int
        decreases line,
    {
        if line > 0 && self.lines[line].len() == 0 {
            self.above_blanks(line - 1)
        } else {
            line
        }
    }

    /// The first line at or above `line` that is empty, or line 0.
    pub open spec fn above_text(self, line: int) -> int
        decreases line,
    {
        if line > 0 && self.lines[line].len() != 0 {
            self.above_text(line - 1)
        } else {
            line
        }
    }

    /// The first line at or below `line` that is empty, or the last line.
    pub open spec fn below_text(self, line: int) -> int
        decreases self.lines.len() - line,
    {
        if line + 1 < self.lines.len() && self.lines[line].len() != 0 {
            self.below_text(line + 1)
        } else {
            line
        }
    }

    /// The first line at or below `line` that is not empty, or the last line.
    pub open spec fn below_blanks(self, line: int) -> int
        decreases self.lines.len() - line,
    {
        if line + 1 < self.lines.len() && self.lines[line].len() == 0 {
            self.below_blanks(line + 1)
        } else {
            line
        }
    }

    /// The cursor on the empty line above its paragraph.
    #[verifier::opaque]
    pub open spec fn paragraph_up(self) -> BufferView {
        self.to_line(self.above_text(self.above_blanks(self.line)))
    }

    /// The cursor on the first line of the paragraph below its own.
    #[verifier::opaque]
    pub open spec fn paragraph_down(self) -> BufferView {
        self.to_line(self.below_blanks(self.below_text(self.line)))
    }

    /// Whitespace erased left of the cursor, and the first character that is
    /// not whitespace with it.
    pub open spec fn eat_blanks(self) -> BufferView
        decreases self.line, self.idx, self.lines[0].len(),
        when self.wf()
    {
        match self.erased() {
            None => self,
            Some(c) => if unicode_whitespace(c) {
                self.fast_backspace().eat_blanks()
            } else {
                self.fast_backspace()
            },
        }
    }

    /// Alphanumeric characters erased left of the cursor, and the first
    /// other character with them.
    pub open spec fn eat_word(self) -> BufferView
        decreases self.line, self.idx, self.lines[0].len(),
        when self.wf()
    {
        match self.erased() {
            None => self,
            Some(c) => if unicode_alphanumeric(c) {
                self.fast_backspace().eat_word()
            } else {
                self.fast_backspace()
            },
        }
    }

    /// The last character that `eat_word` erases; a space where it comes to
    /// the start of the text.
    pub open spec fn eat_word_last(self) -> char
        decreases self.line, self.idx, self.lines[0].len(),
        when self.wf()
    {
        match self.erased() {
            None => ' ',
            Some(c) => if unicode_alphanumeric(c) {
                self.fast_backspace().eat_word_last()
            } else {
                c
            },
        }
    }

    /// The word left of the cursor erased: whitespace and one more
    /// character, then alphanumeric characters up to the first other
    /// character, which is put back unless it is a line break.
    #[verifier::opaque]
    pub open spec fn kill_word(self) -> BufferView {
        let blanks = self.eat_blanks();
        let last = blanks.eat_word_last();
        if last == '\n' {
            blanks.eat_word().update_highlighting()
        } else {
            blanks.eat_word().type_char(last)
        }
    }
}

impl Buffer {
    /// Whether the cursor stands on whitespace or at the end of its line.
    pub fn at_blank(&self) -> (b: bool)
        requires
            self.wf(),
        ensures
            b == self@.blank(),
    {
        match self.under_cursor() {
            None => true,
            Some(c) => is_whitespace(c),
        }
    }

    /// The character under the cursor, if the cursor stands on one.
    pub fn under_cursor(&self) -> (c: Option<char>)
        requires
            self.wf(),
        ensures
            c == (if self@.idx < self@.cur().len() {
                Some(self@.cur()[self@.idx])
            } else {
                None
            }),
    {
        crate::text::char_at(self.contents[self.cursor_pos.line].as_str(), self.cursor_pos.idx)
    }

    /// Moves the cursor right over blanks (`blanks`) or over the characters
    /// of a word.
    fn skip_fwd(&mut self, blanks: bool)
        requires
            old(self).wf(),
        ensures
            old(self)@.fresh() ==> final(self)@.fresh(),
            final(self).wf(),
            final(self)@ == (if blanks {
                old(self)@.skip_blank_fwd()
            } else {
                old(self)@.skip_word_fwd()
            }),
    {
        loop
            invariant_except_break
                self.wf(),
                old(self).wf(),
                old(self)@.fresh() ==> self@.fresh(),
                blanks ==> self@.skip_blank_fwd() == old(self)@.skip_blank_fwd(),
                !blanks ==> self@.skip_word_fwd() == old(self)@.skip_word_fwd(),
            ensures
                self.wf(),
                old(self)@.fresh() ==> self@.fresh(),
                blanks ==> self@ == old(self)@.skip_blank_fwd(),
                !blanks ==> self@ == old(self)@.skip_word_fwd(),
            decreases self@.lines.len() - self@.line, self@.cur().len() - self@.idx,
        {
            if self.at_blank() != blanks {
                break ;
            }
            if !self.move_right() {
                break ;
            }
        }
    }

    /// Moves the cursor left over blanks (`blanks`) or over the characters
    /// of a word.
    fn skip_back(&mut self, blanks: bool)
        requires
            old(self).wf(),
        ensures
            old(self)@.fresh() ==> final(self)@.fresh(),
            final(self).wf(),
            final(self)@ == (if blanks {
                old(self)@.skip_blank_back()
            } else {
                old(self)@.skip_word_back()
            }),
    {
        loop
            invariant_except_break
                self.wf(),
                old(self).wf(),
                old(self)@.fresh() ==> self@.fresh(),
                blanks ==> self@.skip_blank_back() == old(self)@.skip_blank_back(),
                !blanks ==> self@.skip_word_back() == old(self)@.skip_word_back(),
            ensures
                self.wf(),
                old(self)@.fresh() ==> self@.fresh(),
                blanks ==> self@ == old(self)@.skip_blank_back(),
                !blanks ==> self@ == old(self)@.skip_word_back(),
            decreases self@.line, self@.idx,
        {
            if self.at_blank() != blanks {
                break ;
            }
            if !self.move_left() {
                break ;
            }
        }
    }

    /// Moves the cursor behind the next word.
    pub fn word_forward(&mut self)
        requires
            old(self).wf(),
        ensures
            old(self)@.fresh() ==> final(self)@.fresh(),
            final(self).wf(),
            final(self)@ == old(self)@.word_forward(),
    {
        proof {
            reveal(BufferView::word_forward);
        }
        self.skip_fwd(true);
        self.skip_fwd(false);
        let _ = self.move_right();
        if self.cursor_pos.idx == 0 {
            let _ = self.move_left();
        }
    }

    /// Moves the cursor before the word to its left.
    pub fn word_back(&mut self)
        requires
            old(self).wf(),
        ensures
            old(self)@.fresh() ==> final(self)@.fresh(),
            final(self).wf(),
            final(self)@ == old(self)@.word_back(),
    {
        proof {
            reveal(BufferView::word_back);
        }
        self.skip_back(true);
        self.skip_back(false);
    }

    /// Moves the cursor behind the first occurrence of `pat` at or after it.
    pub fn seek(&mut self, pat: &Vec<char>)
        requires
            old(self).wf(),
        ensures
            old(self)@.fresh() ==> final(self)@.fresh(),
            final(self).wf(),
            final(self)@ == old(self)@.seek(pat@),
    {
        let count: usize = self.contents.len();
        loop
            invariant_except_break
                self.wf(),
                old(self).wf(),
                old(self)@.fresh() ==> self@.fresh(),
                count == self@.lines.len(),
                self@.seek(pat@) == old(self)@.seek(pat@),
            ensures
                self.wf(),
                old(self)@.fresh() ==> self@.fresh(),
                self@ == old(self)@.seek(pat@),
            decreases self@.lines.len() - self@.line,
        {
            let chars = self.line_chars(self.cursor_pos.line);
            match find_from_exec(&chars, pat, self.cursor_pos.idx) {
                Some(q) => {
                    self.cursor_pos.idx = q + pat.len();
                    break ;
                },
                None => {
                    if self.cursor_pos.line + 1 != count {
                        self.cursor_pos.line += 1;
                        self.cursor_pos.idx = 0;
                    } else {
                        break ;
                    }
                },
            }
        }
    }

    /// Moves the cursor behind the next occurrence of `pat` after the
    /// character that it stands on.
    pub fn seek_next(&mut self, pat: &Vec<char>)
        requires
            old(self).wf(),
        ensures
            old(self)@.fresh() ==> final(self)@.fresh(),
            final(self).wf(),
            final(self)@ == old(self)@.seek_next(pat@),
    {
        proof {
            reveal(BufferView::seek_next);
        }
        if self.move_right() {
            self.seek(pat);
        }
    }

    /// Moves the cursor behind the last occurrence of `pat` that lies before it.
    pub fn seek_back(&mut self, pat: &Vec<char>)
        requires
            old(self).wf(),
        ensures
            old(self)@.fresh() ==> final(self)@.fresh(),
            final(self).wf(),
            final(self)@ == old(self)@.seek_back(pat@),
    {
        loop
            invariant_except_break
                self.wf(),
                old(self).wf(),
                old(self)@.fresh() ==> self@.fresh(),
                self@.seek_back(pat@) == old(self)@.seek_back(pat@),
            ensures
                self.wf(),
                old(self)@.fresh() ==> self@.fresh(),
                self@ == old(self)@.seek_back(pat@),
            decreases self@.line,
        {
            let chars = self.line_chars(self.cursor_pos.line);
            match rfind_before_exec(&chars, pat, self.cursor_pos.idx) {
                Some(q) => {
                    self.cursor_pos.idx = q + pat.len();
                    break ;
                },
                None => {
                    if self.cursor_pos.line != 0 {
                        self.cursor_pos.line -= 1;
                        self.cursor_pos.idx = self.line_len(self.cursor_pos.line);
                    } else {
                        break ;
                    }
                },
            }
        }
    }

    /// Moves the cursor behind the last occurrence of `pat` before the
    /// character left of it.
    pub fn seek_prev(&mut self, pat: &Vec<char>)
        requires
            old(self).wf(),
        ensures
            old(self)@.fresh() ==> final(self)@.fresh(),
            final(self).wf(),
            final(self)@ == old(self)@.seek_prev(pat@),
    {
        proof {
            reveal(BufferView::seek_prev);
        }
        if self.move_left() {
            self.seek_back(pat);
        }
    }

    /// Moves the cursor behind the next occurrence of the search string.
    pub fn find_next(&mut self)
        requires
            old(self).wf(),
        ensures
            old(self)@.fresh() ==> final(self)@.fresh(),
            final(self).wf(),
            final(self)@ == old(self)@.find_next(),
    {
        proof {
            reveal(BufferView::find_next);
        }
        let pat = to_chars(self.find_str.as_str());
        self.seek_next(&pat);
    }

    /// Moves the cursor behind the previous occurrence of the search string.
    pub fn find_prev(&mut self)
        requires
            old(self).wf(),
        ensures
            old(self)@.fresh() ==> final(self)@.fresh(),
            final(self).wf(),
            final(self)@ == old(self)@.find_prev(),
    {
        proof {
            reveal(BufferView::find_prev);
        }
        let pat = to_chars(self.find_str.as_str());
        self.seek_prev(&pat);
    }

    /// Moves the cursor to the empty line above its paragraph.
    pub fn paragraph_up(&mut self)
        requires
            old(self).wf(),
        ensures
            old(self)@.fresh() ==> final(self)@.fresh(),
            final(self).wf(),
            final(self)@ == old(self)@.paragraph_up(),
    {
        proof {
            reveal(BufferView::paragraph_up);
        }
        let mut line: usize = self.cursor_pos.line;
        while line != 0 && self.line_len(line) == 0
            invariant
                line < self@.lines.len(),
                self@.above_blanks(line as int) == self@.above_blanks(self@.line),
            decreases line,
        {
            line -= 1;
        }
        let ghost mid = line;
        while line != 0 && self.line_len(line) != 0
            invariant
                line < self@.lines.len(),
                self@.above_text(line as int) == self@.above_text(mid as int),
            decreases line,
        {
            line -= 1;
        }
        self.to_line(line);
    }

    /// Moves the cursor to the first line of the paragraph below its own.
    pub fn paragraph_down(&mut self)
        requires
            old(self).wf(),
        ensures
            old(self)@.fresh() ==> final(self)@.fresh(),
            final(self).wf(),
            final(self)@ == old(self)@.paragraph_down(),
    {
        proof {
            reveal(BufferView::paragraph_down);
        }
        let count: usize = self.contents.len();
        let mut line: usize = self.cursor_pos.line;
        while count - line > 1 && self.line_len(line) != 0
            invariant
                count == self@.lines.len(),
                line < count,
                self@.below_text(line as int) == self@.below_text(self@.line),
            decreases count - line,
        {
            line += 1;
        }
        let ghost mid = line;
        while count - line > 1 && self.line_len(line) == 0
            invariant
                count == self@.lines.len(),
                line < count,
                self@.below_blanks(line as int) == self@.below_blanks(mid as int),
            decreases count - line,
        {
            line += 1;
        }
        self.to_line(line);
    }

    /// Erases whitespace left of the cursor and the first character that is
    /// not whitespace. The grid is not recomputed.
    fn eat_blanks(&mut self)
        requires
            old(self).wf(),
        ensures
            final(self).wf(),
            final(self)@ == old(self)@.eat_blanks(),
    {
        loop
            invariant_except_break
                self.wf(),
                old(self).wf(),
                self@.eat_blanks() == old(self)@.eat_blanks(),
            ensures
                self.wf(),
                self@ == old(self)@.eat_blanks(),
            decreases self@.line, self@.idx, self@.lines[0].len(),
        {
            let ghost before = self@;
            match self.fast_backspace() {
                None => {
                    break ;
                },
                Some(c) => {
                    if !is_whitespace(c) {
                        break ;
                    }
                },
            }
        }
    }

    /// Erases alphanumeric characters left of the cursor and the first
    /// other character, which it returns. The grid is not recomputed.
    fn eat_word(&mut self) -> (last: char)
        requires
            old(self).wf(),
        ensures
            final(self).wf(),
            final(self)@ == old(self)@.eat_word(),
            last == old(self)@.eat_word_last(),
    {
        loop
            invariant
                self.wf(),
                old(self).wf(),
                self@.eat_word() == old(self)@.eat_word(),
                self@.eat_word_last() == old(self)@.eat_word_last(),
            decreases self@.line, self@.idx, self@.lines[0].len(),
        {
            match self.fast_backspace() {
                None => {
                    return ' ';
                },
                Some(c) => {
                    if !is_alphanumeric(c) {
                        return c;
                    }
                },
            }
        }
    }

    /// Erases the word left of the cursor.
    pub fn kill_word(&mut self)
        requires
            old(self).wf(),
        ensures
            old(self)@.fresh() ==> final(self)@.fresh(),
            final(self).wf(),
            final(self)@ == old(self)@.kill_word(),
    {
        proof {
            reveal(BufferView::kill_word);
        }
        self.eat_blanks();
        let last = self.eat_word();
        if last == '\n' {
            self.update_highlighting();
        } else {
            self.type_char(last);
        }
    }
}

} // verus!
