//! Plain text: no highlighting, two-space indents.

use crate::languages::{plain_grid, plain_highlight, Glyph, Language, StyledChar};
use vstd::prelude::*;

verus! {

pub struct Text {}

impl Language for Text {
    open spec fn is_kind_spec(&self, filepath: Seq<char>) -> bool {
        true
    }

    open spec fn highlight_spec(&self, lines: Seq<Seq<char>>) -> Seq<Seq<Glyph>> {
        plain_grid(lines)
    }

    open spec fn indent_size_spec(&self) -> usize {
        2
    }

    open spec fn display_spec(&self) -> Seq<char> {
        "Text"@
    }

    fn is_kind(&self, _filepath: &str) -> (b: bool) {
        true
    }

    fn highlight(&self, buffer: &[String]) -> (grid: Vec<Vec<StyledChar>>) {
        plain_highlight(buffer)
    }

    fn indent_size(&self) -> (n: usize) {
        2
    }

    fn display_str(&self) -> (s: &'static str) {
        "Text"
    }
}

} // verus!
