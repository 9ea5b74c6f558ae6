//! Task lists: a whole line is coloured by the mark it starts with.

use crate::languages::{
    coloured_row, grid_view, has_extension, row_covers, row_view, Glyph, Language, StyledChar,
};
use crate::text::{
    chars_eq, ends_with, from_chars_range, lines_view, skip_whitespace, skip_whitespace_back,
    starts_with, starts_with_exec, to_chars, trim,
};
use vstd::prelude::*;

verus! {

pub struct Todo {}

/// The style of a line whose text, once trimmed, is `t`. A text of more than
/// four characters is styled by its first four; any other is dimmed.
pub open spec fn task_style(t: Seq<char>) -> Seq<char> {
    if t.len() > 4 {
        let mark = t.subrange(0, 4);
        if mark == "[ ] "@ {
            "\x1b[33m"@
        } else if mark == "[ ]!"@ {
            "\x1b[31m"@
        } else if mark == "[ ]~"@ {
            "\x1b[36m"@
        } else if mark == "[ ]P"@ {
            "\x1b[35m"@
        } else if starts_with(mark, "[V]"@) {
            "\x1b[32m"@
        } else if starts_with(mark, ">"@) {
            Seq::empty()
        } else if starts_with(mark, "$"@) {
            "\x1b[3m"@
        } else {
            "\x1b[2m"@
        }
    } else {
        "\x1b[2m"@
    }
}

/// The styled grid of a task list.
pub open spec fn todo_grid(lines: Seq<Seq<char>>) -> Seq<Seq<Glyph>> {
    Seq::new(lines.len(), |k: int| coloured_row(lines[k], task_style(trim(lines[k]))))
}

/// The style of the line `line`.
fn task_style_exec(line: &str) -> (s: &'static str)
    ensures
        s@ == task_style(trim(line@)),
{
    let v = to_chars(line);
    let i = skip_whitespace(&v, 0);
    let j = skip_whitespace_back(&v, i, v.len());
    assert(v@.subrange(0, v.len() as int) =~= v@);
    let ghost t = trim(line@);
    assert(t == v@.subrange(i as int, j as int));
    if j - i > 4 {
        let mark = to_chars(from_chars_range(&v, i, i + 4).as_str());
        assert(mark@ =~= t.subrange(0, 4));
        if chars_eq(&mark, &to_chars("[ ] ")) {
            "\x1b[33m"
        } else if chars_eq(&mark, &to_chars("[ ]!")) {
            "\x1b[31m"
        } else if chars_eq(&mark, &to_chars("[ ]~")) {
            "\x1b[36m"
        } else if chars_eq(&mark, &to_chars("[ ]P")) {
            "\x1b[35m"
        } else if starts_with_exec(&mark, &to_chars("[V]")) {
            "\x1b[32m"
        } else if starts_with_exec(&mark, &to_chars(">")) {
            proof {
                reveal_strlit("");
                assert(""@ =~= Seq::<char>::empty());
            }
            ""
        } else if starts_with_exec(&mark, &to_chars("$")) {
            "\x1b[3m"
        } else {
            "\x1b[2m"
        }
    } else {
        "\x1b[2m"
    }
}

impl Language for Todo {
    open spec fn is_kind_spec(&self, filepath: Seq<char>) -> bool {
        ends_with(filepath, ".todo"@)
    }

    open spec fn highlight_spec(&self, lines: Seq<Seq<char>>) -> Seq<Seq<Glyph>> {
        todo_grid(lines)
    }

    open spec fn indent_size_spec(&self) -> usize {
        2
    }

    open spec fn display_spec(&self) -> Seq<char> {
        "Ssorgn't"@
    }

    fn is_kind(&self, filepath: &str) -> (b: bool) {
        has_extension(filepath, ".todo")
    }

    fn highlight(&self, buffer: &[String]) -> (grid: Vec<Vec<StyledChar>>) {
        let mut grid: Vec<Vec<StyledChar>> = Vec::new();
        let mut k: usize = 0;
        while k < buffer.len()
            invariant
                k <= buffer.len(),
                grid@.len() == k,
                forall|j: int|
                    0 <= j < k ==> row_view(#[trigger] grid@[j]@) == coloured_row(
                        buffer@[j]@,
                        task_style(trim(buffer@[j]@)),
                    ),
            decreases buffer.len() - k,
        {
            let line = buffer[k].as_str();
            let row = StyledChar::colour_string(line, task_style_exec(line));
            grid.push(row);
            k += 1;
        }
        assert(grid_view(grid@) =~= todo_grid(lines_view(buffer@)));
        assert forall|j: int| 0 <= j < buffer@.len() implies row_covers(
            #[trigger] grid_view(grid@)[j],
            lines_view(buffer@)[j],
        ) by {
            assert(grid_view(grid@)[j] == row_view(grid@[j]@));
        }
        grid
    }

    fn indent_size(&self) -> (n: usize) {
        2
    }

    fn display_str(&self) -> (s: &'static str) {
        "Ssorgn't"
    }
}

} // verus!
