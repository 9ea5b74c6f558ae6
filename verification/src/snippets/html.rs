//! Snippets for HTML: a page skeleton, and a pair of tags for any other name.

use crate::snippets::{one_line, with_line, Snippet};
use crate::text::{ends_with, ends_with_exec, lines_view, str_eq, trim, trim_exec};
use vstd::prelude::*;

verus! {

pub struct Html {}

/// The skeleton of a page.
pub open spec fn page_skeleton() -> Seq<Seq<char>> {
    seq![
        "<!DOCTYPE html>"@,
        "<html lang=\"en\">"@,
        "  <head>"@,
        "    <meta charset=\"utf-8\">"@,
        "    <title>title</title>"@,
        "  </head>"@,
        "  <body>"@,
        "    <!-- page content -->"@,
        "  </body>"@,
        "</html>"@,
    ]
}

/// An opening tag called `q`, an indented empty line and the closing tag.
pub open spec fn tag_pair(q: Seq<char>) -> Seq<Seq<char>> {
    seq!["<"@ + q + ">"@, "    "@, "</"@ + q + ">"@]
}

impl Snippet for Html {
    open spec fn query_spec(&self, query: Seq<char>) -> Seq<Seq<char>> {
        let q = trim(query);
        if q == "init"@ {
            page_skeleton()
        } else {
            tag_pair(q)
        }
    }

    open spec fn is_kind_spec(&self, filepath: Seq<char>) -> bool {
        ends_with(filepath, ".html"@)
    }

    open spec fn display_spec(&self) -> Seq<char> {
        "html"@
    }

    fn query(&self, query: &str) -> (lines: Vec<String>) {
        let trimmed = trim_exec(query);
        let q = trimmed.as_str();
        if str_eq(q, "init") {
            let l = one_line("<!DOCTYPE html>");
            let l = with_line(l, "<html lang=\"en\">");
            let l = with_line(l, "  <head>");
            let l = with_line(l, "    <meta charset=\"utf-8\">");
            let l = with_line(l, "    <title>title</title>");
            let l = with_line(l, "  </head>");
            let l = with_line(l, "  <body>");
            let l = with_line(l, "    <!-- page content -->");
            let l = with_line(l, "  </body>");
            let l = with_line(l, "</html>");
            assert(lines_view(l@) =~= page_skeleton());
            l
        } else {
            let mut open = String::from_str("<");
            open.append(q);
            open.append(">");
            let mut close = String::from_str("</");
            close.append(q);
            close.append(">");
            let l = one_line(open.as_str());
            let l = with_line(l, "    ");
            let l = with_line(l, close.as_str());
            assert(lines_view(l@) =~= tag_pair(q@));
            l
        }
    }

    fn is_kind(&self, filepath: &str) -> (b: bool) {
        ends_with_exec(filepath, ".html")
    }

    fn display_str(&self) -> (s: &'static str) {
        "html"
    }
}

} // verus!
