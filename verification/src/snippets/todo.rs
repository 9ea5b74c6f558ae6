//! Snippets for task lists.

use crate::snippets::{no_lines, one_line, Snippet};
use crate::text::{ends_with, ends_with_exec, str_eq, trim, trim_exec};
use vstd::prelude::*;

verus! {

pub struct Todo {}

impl Snippet for Todo {
    open spec fn query_spec(&self, query: Seq<char>) -> Seq<Seq<char>> {
        let q = trim(query);
        if q == "newtask"@ || q == "n"@ {
            seq!["[ ] "@]
        } else if q == "asap"@ || q == "a"@ {
            seq!["[ ]!"@]
        } else {
            Seq::empty()
        }
    }

    open spec fn is_kind_spec(&self, filepath: Seq<char>) -> bool {
        ends_with(filepath, ".todo"@)
    }

    open spec fn display_spec(&self) -> Seq<char> {
        "Ssorgn't"@
    }

    fn query(&self, query: &str) -> (lines: Vec<String>) {
        let trimmed = trim_exec(query);
        let q = trimmed.as_str();
        if str_eq(q, "newtask") || str_eq(q, "n") {
            one_line("[ ] ")
        } else if str_eq(q, "asap") || str_eq(q, "a") {
            one_line("[ ]!")
        } else {
            no_lines()
        }
    }

    fn is_kind(&self, filepath: &str) -> (b: bool) {
        ends_with_exec(filepath, ".todo")
    }

    fn display_str(&self) -> (s: &'static str) {
        "Ssorgn't"
    }
}

} // verus!
