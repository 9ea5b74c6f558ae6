//! Autocomplete for Markdown notes: the name of a symbol completes to the
//! symbol itself, so that `delta` becomes `δ`.

use crate::autocomplete::{extract_query, AutoComplete, UpdateRequest};
use crate::buffer::Buffer;
use crate::snippets::one_line;
use crate::symbols::{symbol, symbol_exec};
use crate::text::{ends_with, ends_with_exec, from_chars};
use vstd::prelude::*;

verus! {

pub struct Markdown {}

impl AutoComplete for Markdown {
    open spec fn wf(&self) -> bool {
        true
    }

    open spec fn tokens(&self) -> Seq<Seq<char>> {
        Seq::empty()
    }

    open spec fn candidates_spec(&self, query: Seq<char>) -> Seq<Seq<char>> {
        seq![symbol(query)]
    }

    open spec fn tokens_after(&self, lines: Seq<Seq<char>>) -> Seq<Seq<char>> {
        Seq::empty()
    }

    open spec fn is_kind_spec(&self, path: Seq<char>) -> bool {
        ends_with(path, ".md"@)
    }

    open spec fn display_spec(&self) -> Seq<char> {
        "Markdown"@
    }

    fn get_candidates(&self, buf: &Buffer) -> (r: (Vec<String>, usize)) {
        let query = extract_query(buf.contents[buf.cursor_pos.line].as_str(), buf.cursor_pos.idx);
        let name = from_chars(&query);
        (one_line(symbol_exec(name.as_str())), query.len())
    }

    fn add_tokens(&mut self, _update_request: UpdateRequest) {
    }

    fn is_kind(&self, path: &str) -> (b: bool) {
        ends_with_exec(path, ".md")
    }

    fn display_str(&self) -> (s: &'static str) {
        "Markdown"
    }
}

} // verus!
