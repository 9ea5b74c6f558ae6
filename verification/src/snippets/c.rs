//! Snippets for C and C++ sources.

use crate::snippets::{no_lines, one_line, with_line, Snippet};
use crate::text::{ends_with, ends_with_exec, lines_view, str_eq, trim, trim_exec};
use vstd::prelude::*;

verus! {

pub struct Clang {}

impl Snippet for Clang {
    open spec fn query_spec(&self, query: Seq<char>) -> Seq<Seq<char>> {
        let q = trim(query);
        if q == "include"@ || q == "i"@ {
            seq!["#include <>"@]
        } else if q == "define"@ || q == "d"@ {
            seq!["#define "@]
        } else if q == "std"@ {
            seq!["#include <stdio.h>"@, "#include <stdlib.h>"@]
        } else if q == "struct"@ {
            seq!["typedef struct {"@, "    type field;"@, "} name;"@]
        } else if q == "enum"@ {
            seq!["typedef enum {"@, "    member,"@, "} name;"@]
        } else {
            Seq::empty()
        }
    }

    open spec fn is_kind_spec(&self, filepath: Seq<char>) -> bool {
        ends_with(filepath, ".c"@) || ends_with(filepath, ".cpp"@)
    }

    open spec fn display_spec(&self) -> Seq<char> {
        "PDP-11"@
    }

    fn query(&self, query: &str) -> (lines: Vec<String>) {
        let trimmed = trim_exec(query);
        let q = trimmed.as_str();
        if str_eq(q, "include") || str_eq(q, "i") {
            one_line("#include <>")
        } else if str_eq(q, "define") || str_eq(q, "d") {
            one_line("#define ")
        } else if str_eq(q, "std") {
            let lines = with_line(one_line("#include <stdio.h>"), "#include <stdlib.h>");
            assert(lines_view(lines@) =~= seq!["#include <stdio.h>"@, "#include <stdlib.h>"@]);
            lines
        } else if str_eq(q, "struct") {
            let lines = with_line(
                with_line(one_line("typedef struct {"), "    type field;"),
                "} name;",
            );
            assert(lines_view(lines@) =~= seq![
                "typedef struct {"@,
                "    type field;"@,
                "} name;"@,
            ]);
            lines
        } else if str_eq(q, "enum") {
            let lines = with_line(with_line(one_line("typedef enum {"), "    member,"), "} name;");
            assert(lines_view(lines@) =~= seq!["typedef enum {"@, "    member,"@, "} name;"@]);
            lines
        } else {
            no_lines()
        }
    }

    fn is_kind(&self, filepath: &str) -> (b: bool) {
        ends_with_exec(filepath, ".c") || ends_with_exec(filepath, ".cpp")
    }

    fn display_str(&self) -> (s: &'static str) {
        "PDP-11"
    }
}

} // verus!
