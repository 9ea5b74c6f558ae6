//! Markdown: a heading is coloured by its level, its `#` marks dimmed.

use crate::languages::{grid_view, has_extension, row_covers, row_view, Glyph, Language, StyledChar};
use crate::text::{count_leading, ends_with, leading_run, lines_view, to_chars};
use vstd::prelude::*;

verus! {

pub struct Markdown {}

/// The style of the text of a heading of level `level`; none but for levels 1 to 6.
pub open spec fn heading_style(level: nat) -> Seq<char> {
    if level == 1 {
        "\x1b[1;34m"@
    } else if level == 2 {
        "\x1b[35m"@
    } else if level == 3 {
        "\x1b[32m"@
    } else if level == 4 {
        "\x1b[33m"@
    } else if level == 5 {
        "\x1b[31m"@
    } else if level == 6 {
        "\x1b[36m"@
    } else {
        Seq::empty()
    }
}

/// The glyphs of `line`: its leading `#` marks dimmed, the rest in the style
/// of the level that the marks count.
pub open spec fn markdown_row(line: Seq<char>) -> Seq<Glyph> {
    let level = leading_run(line, '#');
    Seq::new(
        line.len(),
        |i: int|
            if i < level {
                ("\x1b[2m"@, '#')
            } else {
                (heading_style(level), line[i])
            },
    )
}

/// The styled grid of a Markdown text.
pub open spec fn markdown_grid(lines: Seq<Seq<char>>) -> Seq<Seq<Glyph>> {
    Seq::new(lines.len(), |k: int| markdown_row(lines[k]))
}

/// The style of the text of a heading of level `level`.
fn heading_style_exec(level: usize) -> (s: &'static str)
    ensures
        s@ == heading_style(level as nat),
{
    if level == 1 {
        "\x1b[1;34m"
    } else if level == 2 {
        "\x1b[35m"
    } else if level == 3 {
        "\x1b[32m"
    } else if level == 4 {
        "\x1b[33m"
    } else if level == 5 {
        "\x1b[31m"
    } else if level == 6 {
        "\x1b[36m"
    } else {
        proof {
            reveal_strlit("");
            assert(""@ =~= Seq::<char>::empty());
        }
        ""
    }
}

/// Highlights one line.
fn highlight_line(line: &str) -> (row: Vec<StyledChar>)
    ensures
        row_view(row@) == markdown_row(line@),
        row_covers(row_view(row@), line@),
{
    let chars = to_chars(line);
    let level = count_leading(&chars, '#');
    let style = heading_style_exec(level);
    let mut row: Vec<StyledChar> = Vec::new();
    let mut i: usize = 0;
    while i < chars.len()
        invariant
            chars@ == line@,
            i <= chars.len(),
            level == leading_run(line@, '#'),
            level <= chars.len(),
            forall|k: int| 0 <= k < level ==> chars@[k] == '#',
            style@ == heading_style(level as nat),
            row@.len() == i,
            forall|k: int| 0 <= k < i ==> (#[trigger] row@[k])@ == markdown_row(line@)[k],
        decreases chars.len() - i,
    {
        let glyph = if i < level {
            StyledChar::styled("\x1b[2m", '#')
        } else {
            StyledChar::styled(style, chars[i])
        };
        row.push(glyph);
        i += 1;
    }
    assert(row_view(row@) =~= markdown_row(line@));
    row
}

impl Language for Markdown {
    open spec fn is_kind_spec(&self, filepath: Seq<char>) -> bool {
        ends_with(filepath, ".md"@)
    }

    open spec fn highlight_spec(&self, lines: Seq<Seq<char>>) -> Seq<Seq<Glyph>> {
        markdown_grid(lines)
    }

    open spec fn indent_size_spec(&self) -> usize {
        4
    }

    open spec fn display_spec(&self) -> Seq<char> {
        "Markdown"@
    }

    fn is_kind(&self, filepath: &str) -> (b: bool) {
        has_extension(filepath, ".md")
    }

    fn highlight(&self, buffer: &[String]) -> (grid: Vec<Vec<StyledChar>>) {
        let mut grid: Vec<Vec<StyledChar>> = Vec::new();
        let mut k: usize = 0;
        while k < buffer.len()
            invariant
                k <= buffer.len(),
                grid@.len() == k,
                forall|j: int|
                    0 <= j < k ==> row_view(#[trigger] grid@[j]@) == markdown_row(buffer@[j]@),
                forall|j: int|
                    0 <= j < k ==> row_covers(row_view(#[trigger] grid@[j]@), buffer@[j]@),
            decreases buffer.len() - k,
        {
            let row = highlight_line(buffer[k].as_str());
            grid.push(row);
            k += 1;
        }
        assert(grid_view(grid@) =~= markdown_grid(lines_view(buffer@)));
        assert forall|j: int| 0 <= j < buffer@.len() implies row_covers(
            #[trigger] grid_view(grid@)[j],
            lines_view(buffer@)[j],
        ) by {
            assert(grid_view(grid@)[j] == row_view(grid@[j]@));
        }
        grid
    }

    fn indent_size(&self) -> (n: usize) {
        4
    }

    fn display_str(&self) -> (s: &'static str) {
        "Markdown"
    }
}

} // verus!
