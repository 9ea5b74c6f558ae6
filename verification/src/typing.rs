//! What typing does: characters and brackets, the Enter key in the text,
//! snippets and autocomplete.

use crate::autocomplete::default::ranked;
use crate::autocomplete::{query_at, AutoComplete};
use crate::buffer::{least, popped, Buffer, BufferView, Mode};
use crate::keys::{
    close_bracket, get_matching_brace, is_close_bracket, is_open_bracket, matching_brace,
    open_bracket,
};
use crate::numbers::{decimal, decimal_string};
use crate::snippets::Snippet;
use crate::symbols::symbol;
use crate::text::{from_chars, is_whitespace, lines_view, spaces, to_chars, unicode_whitespace};
use vstd::prelude::*;

verus! {

impl BufferView {
    /// Whether a closing bracket may be put in at the cursor: the cursor
    /// stands at the end of its line, on whitespace or on a closing bracket.
    pub open spec fn pair_fits(self) -> bool {
        self.idx >= self.cur().len() || unicode_whitespace(self.cur()[self.idx])
            || close_bracket(self.cur()[self.idx])
    }

    /// What follows a bracket `c` that was typed. An opening bracket makes
    /// the indent one deeper and, where a closing bracket fits, puts its
    /// partner in behind the cursor. A closing bracket typed before the same
    /// bracket takes the place of that one, and makes the indent one
    /// shallower in any case.
    #[verifier::opaque]
    pub open spec fn autopair(self, c: char) -> BufferView {
        if open_bracket(c) {
            if self.pair_fits() {
                self.inc_indent().type_char(matching_brace(c)).move_left()
            } else {
                self.inc_indent()
            }
        } else if close_bracket(c) {
            (if self.idx < self.cur().len() && self.cur()[self.idx] == c {
                self.backspace().move_right()
            } else {
                self
            }).dec_indent()
        } else {
            self
        }
    }

    /// The character `c` sent where the mode takes characters: to the search
    /// string, to the replacement string, to the accumulator of a prompt, or
    /// into the text.
    #[verifier::opaque]
    pub open spec fn route_char(self, c: char) -> BufferView {
        if self.mode == Mode::Find {
            BufferView { find_str: self.find_str.push(c), ..self }
        } else if self.mode == Mode::ReplaceStr {
            BufferView { replace_str: self.replace_str.push(c), ..self }
        } else if self.mode.shows_temp() {
            BufferView { temp_str: self.temp_str.push(c), ..self }
        } else {
            self.type_char(c)
        }
    }

    /// The character key `c` pressed: the character is routed, a bracket is
    /// paired unless the mode is `Paste`, and in `Replace` mode the character
    /// that followed is removed.
    #[verifier::opaque]
    pub open spec fn press_char(self, c: char) -> BufferView {
        let routed = self.route_char(c);
        let paired = if (open_bracket(c) || close_bracket(c)) && self.mode != Mode::Paste {
            routed.autopair(c)
        } else {
            routed
        };
        if self.mode == Mode::Replace {
            paired.move_right().backspace()
        } else {
            paired
        }
    }

    /// The Backspace key pressed: the last character of the string that the
    /// mode edits is removed, or in the text what stands left of the cursor.
    #[verifier::opaque]
    pub open spec fn press_backspace(self) -> BufferView {
        if self.mode == Mode::Find {
            BufferView { find_str: popped(self.find_str), ..self }
        } else if self.mode == Mode::ReplaceStr {
            BufferView { replace_str: popped(self.replace_str), ..self }
        } else if self.mode.shows_temp() {
            BufferView { temp_str: popped(self.temp_str), ..self }
        } else {
            self.backspace()
        }
    }

    /// The Delete key pressed: what stands right of the cursor is removed.
    #[verifier::opaque]
    pub open spec fn press_delete(self) -> BufferView {
        self.move_right().backspace()
    }

    /// The line split at the cursor: what follows the cursor becomes a new
    /// indented line below, and the cursor stands behind its indent.
    #[verifier::opaque]
    pub open spec fn split_line(self) -> BufferView {
        self.with_line(self.line, self.cur().subrange(0, self.idx)).newline_below(
            self.cur().subrange(self.idx, self.cur().len() as int),
        )
    }

    /// The Enter key pressed in the text. Before a closing bracket the
    /// bracket goes to a line of its own, one indent step shallower, and an
    /// empty line at the old depth is opened before it; elsewhere the line
    /// is split at the cursor.
    #[verifier::opaque]
    pub open spec fn enter_text(self) -> BufferView {
        if self.idx < self.cur().len() && close_bracket(self.cur()[self.idx]) {
            let shallow = self.dec_indent();
            let split = if shallow.idx != 0 {
                shallow.split_line()
            } else {
                shallow
            };
            split.move_up().inc_indent().newline_below(Seq::empty())
        } else {
            self.split_line()
        }
    }

    /// The snippet prompt committed: the lines of the snippet that the
    /// accumulator names are put in below the cursor, each behind the indent
    /// that the depth asks for; where there is no such snippet, that is
    /// reported on screen.
    #[verifier::opaque]
    pub open spec fn commit_snippet(self, now: int) -> BufferView {
        let snip = self.snippets.query_spec(self.temp_str);
        let told = if snip.len() == 0 {
            self.raise(seq!["Invalid request"@], 1_000_000, now)
        } else {
            self
        };
        let put = told.with_lines(
            self.lines.subrange(0, self.line + 1) + Seq::new(
                snip.len(),
                |i: int| spaces(self.indent_width() as nat) + snip[i],
            ) + self.lines.subrange(self.line + 1, self.lines.len() as int),
        ).update_highlighting();
        BufferView { mode: self.return_mode(), ..put }
    }

    /// The query before the cursor.
    pub open spec fn query(self) -> Seq<char> {
        query_at(self.cur(), self.idx)
    }

    /// The candidates for the query, best first.
    pub open spec fn all_candidates(self) -> Seq<Seq<char>> {
        if self.markdown_engine {
            seq![symbol(self.query())]
        } else {
            ranked(self.tokens, self.query())
        }
    }

    /// The first five candidates.
    pub open spec fn shortlist(self) -> Seq<Seq<char>> {
        self.all_candidates().subrange(0, least(5, self.all_candidates().len() as int))
    }

    /// The query replaced by candidate `n` of the shortlist, counted from 0,
    /// and the cursor put behind it; nothing where the shortlist is shorter.
    #[verifier::opaque]
    pub open spec fn pick(self, n: int) -> BufferView {
        if 0 <= n < self.shortlist().len() {
            let q = self.query().len();
            let with = self.shortlist()[n];
            self.with_line(
                self.line,
                self.cur().subrange(0, self.idx - q) + with + self.cur().subrange(
                    self.idx,
                    self.cur().len() as int,
                ),
            ).at_col(self.idx - q + with.len()).clamp().update_highlighting()
        } else {
            self
        }
    }

    /// The lines that show the shortlist, numbered from 1.
    pub open spec fn shortlist_lines(self) -> Seq<Seq<char>> {
        Seq::new(
            self.shortlist().len(),
            |i: int| decimal((i + 1) as nat) + ": `"@ + self.shortlist()[i] + "`"@,
        )
    }

    /// The shortlist on screen, for half a second.
    #[verifier::opaque]
    pub open spec fn list_candidates(self, now: int) -> BufferView {
        self.raise(self.shortlist_lines(), 500_000, now)
    }
}

impl Buffer {
    /// Does what follows a bracket `c` that was typed.
    pub fn autopair(&mut self, c: char)
        requires
            old(self).wf(),
        ensures
            old(self)@.fresh() ==> final(self)@.fresh(),
            final(self).wf(),
            final(self)@ == old(self)@.autopair(c),
    {
        proof {
            reveal(BufferView::autopair);
        }
        if is_open_bracket(c) {
            let fits = match self.under_cursor() {
                None => true,
                Some(u) => is_whitespace(u) || is_close_bracket(u),
            };
            self.inc_indent();
            if fits {
                self.type_char(get_matching_brace(c));
                let _ = self.move_left();
            }
        } else if is_close_bracket(c) {
            let same = match self.under_cursor() {
                None => false,
                Some(u) => u == c,
            };
            if same {
                let _ = self.backspace();
                let _ = self.move_right();
            }
            self.dec_indent();
        }
    }

    /// Sends the character `c` where the mode takes characters.
    pub fn route_char(&mut self, c: char)
        requires
            old(self).wf(),
        ensures
            old(self)@.fresh() ==> final(self)@.fresh(),
            final(self).wf(),
            final(self)@ == old(self)@.route_char(c),
    {
        proof {
            reveal(BufferView::route_char);
        }
        if self.mode == Mode::Find {
            self.find_str.push(c);
        } else if self.mode == Mode::ReplaceStr {
            self.replace_str.push(c);
        } else if self.mode.show_temp() {
            self.temp_str.push(c);
        } else {
            self.type_char(c);
        }
    }

    /// Handles the character key `c`.
    pub fn press_char(&mut self, c: char)
        requires
            old(self).wf(),
        ensures
            old(self)@.fresh() ==> final(self)@.fresh(),
            final(self).wf(),
            final(self)@ == old(self)@.press_char(c),
    {
        proof {
            reveal(BufferView::press_char);
        }
        let mode = self.mode;
        self.route_char(c);
        if (is_open_bracket(c) || is_close_bracket(c)) && mode != Mode::Paste {
            self.autopair(c);
        }
        if mode == Mode::Replace {
            let _ = self.move_right();
            let _ = self.backspace();
        }
    }

    /// Handles the Backspace key.
    pub fn press_backspace(&mut self)
        requires
            old(self).wf(),
        ensures
            old(self)@.fresh() ==> final(self)@.fresh(),
            final(self).wf(),
            final(self)@ == old(self)@.press_backspace(),
    {
        proof {
            reveal(BufferView::press_backspace);
        }
        if self.mode == Mode::Find {
            let _ = self.find_str.pop();
        } else if self.mode == Mode::ReplaceStr {
            let _ = self.replace_str.pop();
        } else if self.mode.show_temp() {
            let _ = self.temp_str.pop();
        } else {
            let _ = self.backspace();
        }
    }

    /// Handles the Delete key.
    pub fn press_delete(&mut self)
        requires
            old(self).wf(),
        ensures
            old(self)@.fresh() ==> final(self)@.fresh(),
            final(self).wf(),
            final(self)@ == old(self)@.press_delete(),
    {
        proof {
            reveal(BufferView::press_delete);
        }
        let _ = self.move_right();
        let _ = self.backspace();
    }

    /// Splits the line at the cursor.
    pub fn split_line(&mut self)
        requires
            old(self).wf(),
        ensures
            old(self)@.fresh() ==> final(self)@.fresh(),
            final(self).wf(),
            final(self)@ == old(self)@.split_line(),
    {
        proof {
            reveal(BufferView::split_line);
        }
        let line = self.cursor_pos.line;
        let mut head = self.line_chars(line);
        let tail = head.split_off(self.cursor_pos.idx);
        let rest = from_chars(&tail);
        self.set_line(line, &head);
        self.newline_below(rest.as_str());
    }

    /// Handles the Enter key in the text.
    pub fn enter_text(&mut self)
        requires
            old(self).wf(),
        ensures
            old(self)@.fresh() ==> final(self)@.fresh(),
            final(self).wf(),
            final(self)@ == old(self)@.enter_text(),
    {
        proof {
            reveal(BufferView::enter_text);
        }
        let closing = match self.under_cursor() {
            None => false,
            Some(u) => is_close_bracket(u),
        };
        if closing {
            self.dec_indent();
            if self.cursor_pos.idx != 0 {
                self.split_line();
            }
            let _ = self.move_up();
            self.inc_indent();
            proof {
                reveal_strlit("");
                assert(""@ =~= Seq::<char>::empty());
            }
            self.newline_below("");
        } else {
            self.split_line();
        }
    }

    /// Commits the snippet prompt.
    pub fn commit_snippet(&mut self)
        requires
            old(self).wf(),
        ensures
            old(self)@.fresh() ==> final(self)@.fresh(),
            final(self).wf(),
            final(self)@ == old(self)@.commit_snippet(final(self).alert.time as int),
    {
        proof {
            reveal(BufferView::commit_snippet);
        }
        let snip = self.snippets.query(self.temp_str.as_str());
        if snip.len() == 0 {
            self.raise_one("Invalid request", 1_000_000);
        }
        let width = self.indent_width();
        let count: usize = self.contents.len();
        let pad = crate::text::spaces_string(width);
        let mut lines = self.slice_lines(0, self.cursor_pos.line + 1);
        let mut tail = self.slice_lines(self.cursor_pos.line + 1, count);
        let ghost head = lines_view(lines@);
        let ghost sv = lines_view(snip@);
        let mut i: usize = 0;
        while i < snip.len()
            invariant
                i <= snip.len(),
                sv == lines_view(snip@),
                pad@ == spaces(width as nat),
                lines@.len() == head.len() + i,
                forall|k: int| 0 <= k < head.len() ==> (#[trigger] lines@[k])@ == head[k],
                forall|k: int|
                    0 <= k < i ==> (#[trigger] lines@[head.len() + k])@ == spaces(width as nat)
                        + sv[k],
            decreases snip.len() - i,
        {
            let mut s = pad.clone();
            s.append(snip[i].as_str());
            lines.push(s);
            i += 1;
        }
        let ghost mid = lines_view(lines@);
        let ghost end = lines_view(tail@);
        let ghost body = Seq::new(sv.len(), |i: int| spaces(width as nat) + sv[i]);
        assert(mid.len() == head.len() + body.len());
        assert forall|k: int| 0 <= k < mid.len() implies mid[k] == (head + body)[k] by {
            if k < head.len() {
                assert(lines@[k]@ == head[k]);
            } else {
                let j = k - head.len();
                assert(lines@[head.len() + j]@ == spaces(width as nat) + sv[j]);
            }
        }
        assert(mid =~= head + body);
        lines.append(&mut tail);
        assert(lines_view(lines@) =~= mid + end);
        self.replace_lines(lines);
        self.update_highlighting();
        proof {
            crate::buffer::lemma_var_names_differ();
        }
        self.mode = self.return_mode();
    }

    /// The first five candidates for the query before the cursor, and the
    /// number of characters of the query.
    pub fn shortlist(&self) -> (r: (Vec<String>, usize))
        requires
            self.wf(),
        ensures
            lines_view(r.0@) == self@.shortlist(),
            r.1 == self@.query().len(),
            r.1 <= self@.idx,
    {
        let (all, qlen) = self.autocomplete.get_candidates(self);
        proof {
            crate::autocomplete::lemma_token_suffix_bound(self@.cur().subrange(0, self@.idx));
        }
        let n: usize = if all.len() < 5 {
            all.len()
        } else {
            5
        };
        let mut short: Vec<String> = Vec::new();
        let mut i: usize = 0;
        while i < n
            invariant
                i <= n <= all.len(),
                short@.len() == i,
                forall|k: int| 0 <= k < i ==> (#[trigger] short@[k])@ == all@[k]@,
            decreases n - i,
        {
            let s = all[i].clone();
            short.push(s);
            i += 1;
        }
        assert(lines_view(short@) =~= lines_view(all@).subrange(0, n as int));
        (short, qlen)
    }

    /// Replaces the query before the cursor by candidate `n` of the
    /// shortlist, counted from 0.
    pub fn pick(&mut self, n: usize)
        requires
            old(self).wf(),
        ensures
            old(self)@.fresh() ==> final(self)@.fresh(),
            final(self).wf(),
            final(self)@ == old(self)@.pick(n as int),
    {
        proof {
            reveal(BufferView::pick);
        }
        let (short, qlen) = self.shortlist();
        if n < short.len() {
            let with = to_chars(short[n].as_str());
            let idx = self.cursor_pos.idx;
            let len = self.splice(idx - qlen, idx, &with);
            assert(idx - qlen + with.len() <= len);
            self.cursor_pos.idx = idx - qlen + with.len();
            self.clamp();
            self.update_highlighting();
        }
    }

    /// Shows the shortlist on screen.
    pub fn list_candidates(&mut self)
        requires
            old(self).wf(),
        ensures
            old(self)@.fresh() ==> final(self)@.fresh(),
            final(self).wf(),
            final(self)@ == old(self)@.list_candidates(final(self).alert.time as int),
    {
        proof {
            reveal(BufferView::list_candidates);
        }
        let (short, _) = self.shortlist();
        let mut lines: Vec<String> = Vec::new();
        let ghost wanted = self@.shortlist_lines();
        let mut i: usize = 0;
        while i < short.len()
            invariant
                i <= short.len(),
                lines_view(short@) == self@.shortlist(),
                wanted == self@.shortlist_lines(),
                lines@.len() == i,
                forall|k: int| 0 <= k < i ==> (#[trigger] lines@[k])@ == wanted[k],
            decreases short.len() - i,
        {
            let mut s = decimal_string((i + 1) as u128);
            s.append(": `");
            s.append(short[i].as_str());
            s.append("`");
            assert(lines_view(short@)[i as int] == short@[i as int]@);
            lines.push(s);
            i += 1;
        }
        assert(lines_view(lines@) =~= wanted);
        self.raise(lines.as_slice(), 500_000);
    }
}

} // verus!
