//! The catalogue for plain text, which holds no snippet.

use crate::snippets::{no_lines, Snippet};

use vstd::prelude::*;

verus! {

pub struct Text {}

impl Snippet for Text {
    open spec fn query_spec(&self, query: Seq<char>) -> Seq<Seq<char>> {
        Seq::empty()
    }

    open spec fn is_kind_spec(&self, filepath: Seq<char>) -> bool {
        true
    }

    open spec fn display_spec(&self) -> Seq<char> {
        "Text"@
    }

    fn query(&self, _query: &str) -> (lines: Vec<String>) {
        no_lines()
    }

    fn is_kind(&self, _filepath: &str) -> (b: bool) {
        true
    }

    fn display_str(&self) -> (s: &'static str) {
        "Text"
    }
}

} // verus!
