//! Snippets for Markdown notes: symbols that a keyboard lacks, by name.

use crate::snippets::{one_line, Snippet};
use crate::symbols::{symbol, symbol_exec};
use crate::text::{ends_with, ends_with_exec};
use vstd::prelude::*;

verus! {

pub struct Markdown {}

impl Snippet for Markdown {
    open spec fn query_spec(&self, query: Seq<char>) -> Seq<Seq<char>> {
        seq![symbol(query)]
    }

    open spec fn is_kind_spec(&self, filepath: Seq<char>) -> bool {
        ends_with(filepath, ".md"@)
    }

    open spec fn display_spec(&self) -> Seq<char> {
        "Markdown"@
    }

    fn query(&self, query: &str) -> (lines: Vec<String>) {
        one_line(symbol_exec(query))
    }

    fn is_kind(&self, filepath: &str) -> (b: bool) {
        ends_with_exec(filepath, ".md")
    }

    fn display_str(&self) -> (s: &'static str) {
        "Markdown"
    }
}

} // verus!
