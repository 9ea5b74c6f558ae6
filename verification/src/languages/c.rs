//! C and C++ sources: no highlighting yet, four-space indents.

use crate::languages::{has_extension, plain_grid, plain_highlight, Glyph, Language, StyledChar};
use crate::text::ends_with;
use vstd::prelude::*;

verus! {

pub struct Clang {}

impl Language for Clang {
    open spec fn is_kind_spec(&self, filepath: Seq<char>) -> bool {
        ends_with(filepath, ".c"@) || ends_with(filepath, ".cpp"@) || ends_with(filepath, ".h"@)
    }

    open spec fn highlight_spec(&self, lines: Seq<Seq<char>>) -> Seq<Seq<Glyph>> {
        plain_grid(lines)
    }

    open spec fn indent_size_spec(&self) -> usize {
        4
    }

    open spec fn display_spec(&self) -> Seq<char> {
        "C(had)"@
    }

    fn is_kind(&self, filepath: &str) -> (b: bool) {
        has_extension(filepath, ".c") || has_extension(filepath, ".cpp") || has_extension(
            filepath,
            ".h",
        )
    }

    fn highlight(&self, buffer: &[String]) -> (grid: Vec<Vec<StyledChar>>) {
        plain_highlight(buffer)
    }

    fn indent_size(&self) -> (n: usize) {
        4
    }

    fn display_str(&self) -> (s: &'static str) {
        "C(had)"
    }
}

} // verus!
