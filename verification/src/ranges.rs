//! Commands on a range of lines. A range is typed as two line numbers that
//! count from 1; it is decoded and checked as a whole before anything is
//! changed, so that a command on a range either happens or leaves the text
//! as it was.

use crate::buffer::{Alert, Buffer, BufferView, Mode};
use crate::numbers::{decimal, decimal_string, parse_usize, parse_usize_exec};
use crate::text::{
    lines_view, spaces, split_whitespace, split_whitespace_exec, starts_with, starts_with_exec,
};
use vstd::prelude::*;

verus! {

/// The range that `temp` writes for a text of `count` lines: two numbers
/// separated by whitespace, `from` and `to`, with `1 <= from <= to <= count`;
/// or what is wrong with it.
pub open spec fn decode_range(temp: Seq<char>, count: nat) -> Result<(int, int), Seq<char>> {
    let words = split_whitespace(temp);
    if words.len() == 2 {
        match parse_usize(words[0]) {
            Some(f) => if f <= count {
                match parse_usize(words[1]) {
                    Some(t) => if t <= count {
                        if f > t || f == 0 {
                            Err("assert: f <= t"@)
                        } else {
                            Ok((f as int, t as int))
                        }
                    } else {
                        Err("Inval to"@)
                    },
                    None => Err("Inval to"@),
                }
            } else {
                Err("Inval from"@)
            },
            None => Err("Inval from"@),
        }
    } else {
        Err(decimal(words.len()) + " args given, 2 expected"@)
    }
}

/// A decoded range lies within the text.
pub proof fn lemma_decoded_range_valid(temp: Seq<char>, count: nat)
    ensures
        match decode_range(temp, count) {
            Ok(r) => 1 <= r.0 <= r.1 <= count,
            Err(_) => true,
        },
{
}

/// Two ranges that are refused whatever the text: one whose start lies
/// behind its end, and one that writes no numbers.
pub proof fn lemma_decode_range_examples(count: nat)
    ensures
        decode_range("3 1"@, count) is Err,
        decode_range("a b"@, count) is Err,
{
    reveal_strlit("3 1");
    reveal_strlit("a b");
    reveal_with_fuel(crate::text::split_words, 5);
    reveal_with_fuel(crate::numbers::digits_value, 3);
    let e = Seq::<char>::empty();
    assert("3 1"@ =~= seq!['3', ' ', '1']);
    assert("a b"@ =~= seq!['a', ' ', 'b']);
    let three = seq!['3', ' ', '1'];
    assert(three.drop_first() =~= seq![' ', '1']);
    assert(three.drop_first().drop_first() =~= seq!['1']);
    assert(three.drop_first().drop_first().drop_first() =~= e);
    assert(e.push('3') =~= seq!['3']);
    assert(e.push('1') =~= seq!['1']);
    assert(split_whitespace(three) =~= seq![seq!['3'], seq!['1']]);
    let ab = seq!['a', ' ', 'b'];
    assert(ab.drop_first() =~= seq![' ', 'b']);
    assert(ab.drop_first().drop_first() =~= seq!['b']);
    assert(ab.drop_first().drop_first().drop_first() =~= e);
    assert(e.push('a') =~= seq!['a']);
    assert(e.push('b') =~= seq!['b']);
    assert(split_whitespace(ab) =~= seq![seq!['a'], seq!['b']]);
    assert(!crate::numbers::is_digit(seq!['a'][0]));
    assert(parse_usize(seq!['a']) is None);
    assert(seq!['3'].drop_last() =~= e);
    assert(seq!['1'].drop_last() =~= e);
    assert(crate::numbers::digits_value(seq!['3']) == 3);
    assert(crate::numbers::digits_value(seq!['1']) == 1);
}

/// `line` without `size` leading spaces, where it starts with as many.
pub open spec fn strip_indent(line: Seq<char>, size: nat) -> Seq<char> {
    if starts_with(line, spaces(size)) {
        line.subrange(size as int, line.len() as int)
    } else {
        line
    }
}

impl BufferView {
    /// The mode that a finished prompt returns to: `Nav` where the
    /// configuration says so, else `Default`.
    pub open spec fn return_mode(self) -> Mode {
        if self.vars.contains_key("ret-to-nav"@) && self.vars["ret-to-nav"@]
            == crate::buffer::VarView::Bool(true) {
            Mode::Nav
        } else {
            Mode::Default
        }
    }

    /// The range that the accumulator writes.
    pub open spec fn decoded_range(self) -> Result<(int, int), Seq<char>> {
        decode_range(self.temp_str, self.lines.len())
    }

    /// The message `lines` on screen, raised when the clock reads `now`, for
    /// `timeout` microseconds.
    pub open spec fn raise(self, lines: Seq<Seq<char>>, timeout: int, now: int) -> BufferView {
        BufferView { alert: lines, alert_timeout: timeout, alert_time: now, ..self }
    }

    /// The prompt closed: the accumulator emptied and the mode returned to.
    pub open spec fn close_prompt(self) -> BufferView {
        BufferView { temp_str: Seq::empty(), mode: self.return_mode(), ..self }
    }

    /// The lines `from..=to`, counted from 1, copied in above the line of
    /// the cursor. The cursor stays on its line number.
    #[verifier::opaque]
    pub open spec fn copy_range(self, from: int, to: int) -> BufferView {
        self.with_lines(
            self.lines.subrange(0, self.line) + self.lines.subrange(from - 1, to)
                + self.lines.subrange(self.line, self.lines.len() as int),
        ).clamp().update_highlighting()
    }

    /// What is left of the text without the lines `from..=to`, counted from
    /// 1: the other lines, or a single empty line.
    pub open spec fn without_range(self, from: int, to: int) -> Seq<Seq<char>> {
        let rest = self.lines.subrange(0, from - 1) + self.lines.subrange(
            to,
            self.lines.len() as int,
        );
        if rest.len() == 0 {
            seq![Seq::empty()]
        } else {
            rest
        }
    }

    /// The lines `from..=to`, counted from 1, taken out of the text. The
    /// cursor stays on its line number, or on the last line.
    #[verifier::opaque]
    pub open spec fn kill_range(self, from: int, to: int) -> BufferView {
        let rest = self.without_range(from, to);
        self.with_lines(rest).at(
            crate::buffer::least(self.line, rest.len() - 1),
            self.idx,
        ).clamp().update_highlighting()
    }

    /// The lines `from..=to`, counted from 1, each without one indent step
    /// of leading spaces where it has as many.
    #[verifier::opaque]
    pub open spec fn shift_left_range(self, from: int, to: int) -> BufferView {
        self.with_lines(
            Seq::new(
                self.lines.len(),
                |i: int|
                    if from - 1 <= i < to {
                        strip_indent(self.lines[i], self.indent_size() as nat)
                    } else {
                        self.lines[i]
                    },
            ),
        ).clamp().update_highlighting()
    }

    /// The lines `from..=to`, counted from 1, each behind one more indent
    /// step of spaces.
    #[verifier::opaque]
    pub open spec fn shift_right_range(self, from: int, to: int) -> BufferView {
        self.with_lines(
            Seq::new(
                self.lines.len(),
                |i: int|
                    if from - 1 <= i < to {
                        spaces(self.indent_size() as nat) + self.lines[i]
                    } else {
                        self.lines[i]
                    },
            ),
        ).update_highlighting()
    }

    /// The copy prompt committed: the range copied, or its fault on screen
    /// and the text as it was; the prompt is closed either way.
    #[verifier::opaque]
    pub open spec fn commit_copy(self, now: int) -> BufferView {
        (match self.decoded_range() {
            Ok(r) => self.copy_range(r.0, r.1),
            Err(e) => self.raise(seq![e], 1_000_000, now),
        }).close_prompt()
    }

    /// The kill prompt committed: the range removed, or its fault on screen
    /// and the text as it was; the prompt is closed either way.
    #[verifier::opaque]
    pub open spec fn commit_kill(self, now: int) -> BufferView {
        (match self.decoded_range() {
            Ok(r) => self.kill_range(r.0, r.1),
            Err(e) => self.raise(seq![e], 1_000_000, now),
        }).close_prompt()
    }

    /// The range of the accumulator shifted one indent step to the left, or
    /// its fault on screen and the text as it was.
    #[verifier::opaque]
    pub open spec fn commit_shift_left(self, now: int) -> BufferView {
        match self.decoded_range() {
            Ok(r) => self.shift_left_range(r.0, r.1),
            Err(e) => self.raise(seq![e], 1_000_000, now),
        }
    }

    /// The range of the accumulator shifted one indent step to the right, or
    /// its fault on screen and the text as it was.
    #[verifier::opaque]
    pub open spec fn commit_shift_right(self, now: int) -> BufferView {
        match self.decoded_range() {
            Ok(r) => self.shift_right_range(r.0, r.1),
            Err(e) => self.raise(seq![e], 1_000_000, now),
        }
    }

    /// The goto prompt committed. A number below the number of lines puts
    /// the cursor on that line, counted from 1, and 0 on the first line;
    /// what is no number is reported on screen.
    #[verifier::opaque]
    pub open spec fn commit_goto(self, now: int) -> BufferView {
        (match parse_usize(self.temp_str) {
            Some(n) => if n < self.lines.len() {
                self.to_line(
                    if n != 0 {
                        n - 1
                    } else {
                        0
                    },
                )
            } else {
                self
            },
            None => self.raise(seq!["Inval line num"@], 1_000_000, now),
        }).close_prompt()
    }
}

/// A fault of the range leaves the text as it was, whichever command the
/// range was typed for.
pub proof fn lemma_range_commit_atomic(v: BufferView, now: int)
    requires
        v.decoded_range() is Err,
    ensures
        v.commit_copy(now).lines == v.lines,
        v.commit_kill(now).lines == v.lines,
        v.commit_shift_left(now).lines == v.lines,
        v.commit_shift_right(now).lines == v.lines,
        v.commit_copy(now).alert == seq![v.decoded_range()->Err_0],
        v.commit_kill(now).alert == seq![v.decoded_range()->Err_0],
{
    reveal(BufferView::commit_copy);
    reveal(BufferView::commit_kill);
    reveal(BufferView::commit_shift_left);
    reveal(BufferView::commit_shift_right);
}

impl Buffer {
    /// The mode that a finished prompt returns to.
    pub fn return_mode(&self) -> (m: Mode)
        ensures
            m == self@.return_mode(),
    {
        if self.flag("ret-to-nav") {
            Mode::Nav
        } else {
            Mode::Default
        }
    }

    /// Decodes the accumulator as a range of lines, counted from 1 and
    /// inclusive: `Ok((from, to))` with `1 <= from <= to <= line count`, or
    /// the message that says what is wrong.
    pub fn decode_from_to(&self) -> (r: Result<(usize, usize), String>)
        ensures
            match r {
                Ok(p) => self@.decoded_range() == Ok::<(int, int), Seq<char>>(
                    (p.0 as int, p.1 as int),
                ) && 1 <= p.0 <= p.1 <= self@.lines.len(),
                Err(e) => self@.decoded_range() == Err::<(int, int), Seq<char>>(e@),
            },
    {
        let words = split_whitespace_exec(self.temp_str.as_str());
        let count: usize = self.contents.len();
        if words.len() == 2 {
            assert(lines_view(words@)[0] == words@[0]@);
            assert(lines_view(words@)[1] == words@[1]@);
            let f: usize = match parse_usize_exec(words[0].as_str()) {
                Some(o) => {
                    if o <= count {
                        o
                    } else {
                        return Err(String::from_str("Inval from"));
                    }
                },
                None => {
                    return Err(String::from_str("Inval from"));
                },
            };
            let t: usize = match parse_usize_exec(words[1].as_str()) {
                Some(o) => {
                    if o <= count {
                        o
                    } else {
                        return Err(String::from_str("Inval to"));
                    }
                },
                None => {
                    return Err(String::from_str("Inval to"));
                },
            };
            if f > t || f == 0 {
                return Err(String::from_str("assert: f <= t"));
            }
            Ok((f, t))
        } else {
            let mut msg = decimal_string(words.len() as u128);
            msg.append(" args given, 2 expected");
            Err(msg)
        }
    }

    /// Puts the message `lines` on screen, for `timeout` microseconds.
    pub fn raise(&mut self, lines: &[String], timeout: u128)
        ensures
            final(self)@ == old(self)@.raise(
                lines_view(lines@),
                timeout as int,
                final(self).alert.time as int,
            ),
    {
        self.alert = Alert::new(lines, timeout);
    }

    /// Puts the one-line message `line` on screen, for `timeout` microseconds.
    pub fn raise_one(&mut self, line: &str, timeout: u128)
        ensures
            final(self)@ == old(self)@.raise(
                seq![line@],
                timeout as int,
                final(self).alert.time as int,
            ),
    {
        let lines = crate::snippets::one_line(line);
        self.raise(lines.as_slice(), timeout);
    }

    /// Closes the prompt: empties the accumulator and returns to the mode
    /// that the configuration names.
    pub fn close_prompt(&mut self)
        ensures
            final(self)@ == old(self)@.close_prompt(),
    {
        self.temp_str.clear();
        self.mode = self.return_mode();
    }

    /// Replaces the text by `lines`.
    pub fn replace_lines(&mut self, lines: Vec<String>)
        ensures
            final(self)@ == old(self)@.with_lines(lines_view(lines@)),
    {
        self.contents = lines;
    }

    /// The strings of the lines `from..to`.
    pub fn slice_lines(&self, from: usize, to: usize) -> (lines: Vec<String>)
        requires
            from <= to <= self@.lines.len(),
        ensures
            lines_view(lines@) == self@.lines.subrange(from as int, to as int),
    {
        let mut lines: Vec<String> = Vec::new();
        let mut i: usize = from;
        while i < to
            invariant
                from <= i <= to <= self.contents@.len(),
                lines@.len() == i - from,
                forall|k: int|
                    0 <= k < i - from ==> (#[trigger] lines@[k])@ == self.contents@[from + k]@,
            decreases to - i,
        {
            let s = self.contents[i].clone();
            lines.push(s);
            i += 1;
        }
        assert(lines_view(lines@) =~= self@.lines.subrange(from as int, to as int));
        lines
    }

    /// Copies the lines `from..=to`, counted from 1, in above the line of
    /// the cursor.
    pub fn copy_range(&mut self, from: usize, to: usize)
        requires
            old(self).wf(),
            1 <= from <= to <= old(self)@.lines.len(),
        ensures
            old(self)@.fresh() ==> final(self)@.fresh(),
            final(self).wf(),
            final(self)@ == old(self)@.copy_range(from as int, to as int),
    {
        proof {
            reveal(BufferView::copy_range);
        }
        let count: usize = self.contents.len();
        let mut lines = self.slice_lines(0, self.cursor_pos.line);
        let mut paste = self.slice_lines(from - 1, to);
        let mut tail = self.slice_lines(self.cursor_pos.line, count);
        let ghost a = lines_view(lines@);
        let ghost b = lines_view(paste@);
        let ghost c = lines_view(tail@);
        lines.append(&mut paste);
        lines.append(&mut tail);
        assert(lines_view(lines@) =~= a + b + c);
        self.replace_lines(lines);
        self.clamp();
        self.update_highlighting();
    }

    /// Takes the lines `from..=to`, counted from 1, out of the text.
    pub fn kill_range(&mut self, from: usize, to: usize)
        requires
            old(self).wf(),
            1 <= from <= to <= old(self)@.lines.len(),
        ensures
            old(self)@.fresh() ==> final(self)@.fresh(),
            final(self).wf(),
            final(self)@ == old(self)@.kill_range(from as int, to as int),
    {
        proof {
            reveal(BufferView::kill_range);
        }
        let count: usize = self.contents.len();
        let mut lines = self.slice_lines(0, from - 1);
        let mut tail = self.slice_lines(to, count);
        let ghost a = lines_view(lines@);
        let ghost c = lines_view(tail@);
        lines.append(&mut tail);
        assert(lines_view(lines@) =~= a + c);
        if lines.len() == 0 {
            let s = String::new();
            lines.push(s);
            assert(lines_view(lines@) =~= seq![Seq::<char>::empty()]);
        }
        let rest: usize = lines.len();
        self.replace_lines(lines);
        if self.cursor_pos.line >= rest {
            self.cursor_pos.line = rest - 1;
        }
        self.clamp();
        self.update_highlighting();
    }

    /// Shifts the lines `from..=to`, counted from 1, by one indent step, to
    /// the left or to the right.
    pub fn shift_range(&mut self, from: usize, to: usize, left: bool)
        requires
            old(self).wf(),
            1 <= from <= to <= old(self)@.lines.len(),
        ensures
            old(self)@.fresh() ==> final(self)@.fresh(),
            final(self).wf(),
            final(self)@ == (if left {
                old(self)@.shift_left_range(from as int, to as int)
            } else {
                old(self)@.shift_right_range(from as int, to as int)
            }),
    {
        proof {
            reveal(BufferView::shift_left_range);
            reveal(BufferView::shift_right_range);
        }
        let size = self.indent_size();
        let mut pad: Vec<char> = Vec::new();
        let mut k: usize = 0;
        while k < size
            invariant
                k <= size,
                pad@ == spaces(k as nat),
            decreases size - k,
        {
            pad.push(' ');
            k += 1;
            assert(pad@ =~= spaces(k as nat));
        }
        let count: usize = self.contents.len();
        let mut lines: Vec<String> = Vec::new();
        let ghost start = self@;
        let ghost wanted = if left {
            start.shift_left_range(from as int, to as int).lines
        } else {
            start.shift_right_range(from as int, to as int).lines
        };
        let mut i: usize = 0;
        while i < count
            invariant
                i <= count,
                count == self@.lines.len(),
                self@ == start,
                pad@ == spaces(size as nat),
                size == start.indent_size(),
                1 <= from <= to <= count,
                lines@.len() == i,
                wanted.len() == count,
                forall|k: int|
                    0 <= k < count ==> #[trigger] wanted[k] == (if from - 1 <= k < to {
                        if left {
                            strip_indent(start.lines[k], size as nat)
                        } else {
                            spaces(size as nat) + start.lines[k]
                        }
                    } else {
                        start.lines[k]
                    }),
                wanted == (if left {
                    start.shift_left_range(from as int, to as int).lines
                } else {
                    start.shift_right_range(from as int, to as int).lines
                }),
                forall|k: int| 0 <= k < i ==> (#[trigger] lines@[k])@ == wanted[k],
            decreases count - i,
        {
            let chars = self.line_chars(i);
            let s = if from - 1 <= i && i < to {
                if left {
                    if starts_with_exec(&chars, &pad) {
                        crate::text::from_chars_range(&chars, size, chars.len())
                    } else {
                        crate::text::from_chars(&chars)
                    }
                } else {
                    let mut padded = crate::text::from_chars(&pad);
                    padded.append(self.contents[i].as_str());
                    padded
                }
            } else {
                crate::text::from_chars(&chars)
            };
            lines.push(s);
            i += 1;
        }
        assert(lines_view(lines@) =~= wanted);
        self.replace_lines(lines);
        if left {
            self.clamp();
        }
        self.update_highlighting();
    }

    /// Commits the copy prompt.
    pub fn commit_copy(&mut self)
        requires
            old(self).wf(),
        ensures
            old(self)@.fresh() ==> final(self)@.fresh(),
            final(self).wf(),
            final(self)@ == old(self)@.commit_copy(final(self).alert.time as int),
    {
        proof {
            reveal(BufferView::commit_copy);
        }
        match self.decode_from_to() {
            Ok((f, t)) => {
                self.copy_range(f, t);
            },
            Err(e) => {
                self.raise_one(e.as_str(), 1_000_000);
            },
        }
        self.close_prompt();
    }

    /// Commits the kill prompt.
    pub fn commit_kill(&mut self)
        requires
            old(self).wf(),
        ensures
            old(self)@.fresh() ==> final(self)@.fresh(),
            final(self).wf(),
            final(self)@ == old(self)@.commit_kill(final(self).alert.time as int),
    {
        proof {
            reveal(BufferView::commit_kill);
        }
        match self.decode_from_to() {
            Ok((f, t)) => {
                self.kill_range(f, t);
            },
            Err(e) => {
                self.raise_one(e.as_str(), 1_000_000);
            },
        }
        self.close_prompt();
    }

    /// Shifts the range of the accumulator by one indent step, to the left
    /// or to the right; a fault of the range is reported on screen.
    pub fn commit_shift(&mut self, left: bool)
        requires
            old(self).wf(),
        ensures
            old(self)@.fresh() ==> final(self)@.fresh(),
            final(self).wf(),
            final(self)@ == (if left {
                old(self)@.commit_shift_left(final(self).alert.time as int)
            } else {
                old(self)@.commit_shift_right(final(self).alert.time as int)
            }),
    {
        proof {
            reveal(BufferView::commit_shift_left);
            reveal(BufferView::commit_shift_right);
        }
        match self.decode_from_to() {
            Ok((f, t)) => {
                self.shift_range(f, t, left);
            },
            Err(e) => {
                self.raise_one(e.as_str(), 1_000_000);
            },
        }
    }

    /// Commits the goto prompt.
    pub fn commit_goto(&mut self)
        requires
            old(self).wf(),
        ensures
            old(self)@.fresh() ==> final(self)@.fresh(),
            final(self).wf(),
            final(self)@ == old(self)@.commit_goto(final(self).alert.time as int),
    {
        proof {
            reveal(BufferView::commit_goto);
        }
        match parse_usize_exec(self.temp_str.as_str()) {
            Some(n) => {
                if n < self.contents.len() {
                    if n != 0 {
                        self.to_line(n - 1);
                    } else {
                        self.to_line(0);
                    }
                }
            },
            None => {
                self.raise_one("Inval line num", 1_000_000);
            },
        }
        self.close_prompt();
    }
}

} // verus!
