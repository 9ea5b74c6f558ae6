//! Snippet catalogues: canned lines of text, looked up by a short name.

use crate::text::lines_view;
use vstd::prelude::*;

pub mod c;
pub mod html;
pub mod markdown;
pub mod text;
pub mod todo;

verus! {

/// A catalogue of snippets for one kind of file.
pub trait Snippet {
    /// The lines of the snippet called `query`; empty if there is none.
    spec fn query_spec(&self, query: Seq<char>) -> Seq<Seq<char>>;

    /// Whether the catalogue is meant for the file at `filepath`.
    spec fn is_kind_spec(&self, filepath: Seq<char>) -> bool;

    /// The name shown in the status bar.
    spec fn display_spec(&self) -> Seq<char>;

    fn query(&self, query: &str) -> (lines: Vec<String>)
        ensures
            lines_view(lines@) == self.query_spec(query@),
    ;

    fn is_kind(&self, filepath: &str) -> (b: bool)
        ensures
            b == self.is_kind_spec(filepath@),
    ;

    fn display_str(&self) -> (s: &'static str)
        ensures
            s@ == self.display_spec(),
    ;
}

/// The catalogues that a buffer can be bound to, in the order in which they
/// are probed.
#[derive(Clone, Copy, PartialEq, Eq, Structural)]
pub enum SnippetKind {
    Todo,
    Clang,
    Html,
    Text,
}

/// The catalogue for `path`: the first in probe order whose predicate accepts it.
pub open spec fn select_snippets(path: Seq<char>) -> SnippetKind {
    if (todo::Todo {  }).is_kind_spec(path) {
        SnippetKind::Todo
    } else if (c::Clang {  }).is_kind_spec(path) {
        SnippetKind::Clang
    } else if (html::Html {  }).is_kind_spec(path) {
        SnippetKind::Html
    } else {
        SnippetKind::Text
    }
}

impl Snippet for SnippetKind {
    open spec fn query_spec(&self, query: Seq<char>) -> Seq<Seq<char>> {
        match self {
            SnippetKind::Todo => (todo::Todo {  }).query_spec(query),
            SnippetKind::Clang => (c::Clang {  }).query_spec(query),
            SnippetKind::Html => (html::Html {  }).query_spec(query),
            SnippetKind::Text => (text::Text {  }).query_spec(query),
        }
    }

    open spec fn is_kind_spec(&self, filepath: Seq<char>) -> bool {
        match self {
            SnippetKind::Todo => (todo::Todo {  }).is_kind_spec(filepath),
            SnippetKind::Clang => (c::Clang {  }).is_kind_spec(filepath),
            SnippetKind::Html => (html::Html {  }).is_kind_spec(filepath),
            SnippetKind::Text => (text::Text {  }).is_kind_spec(filepath),
        }
    }

    open spec fn display_spec(&self) -> Seq<char> {
        match self {
            SnippetKind::Todo => (todo::Todo {  }).display_spec(),
            SnippetKind::Clang => (c::Clang {  }).display_spec(),
            SnippetKind::Html => (html::Html {  }).display_spec(),
            SnippetKind::Text => (text::Text {  }).display_spec(),
        }
    }

    fn query(&self, query: &str) -> (lines: Vec<String>) {
        match self {
            SnippetKind::Todo => (todo::Todo {  }).query(query),
            SnippetKind::Clang => (c::Clang {  }).query(query),
            SnippetKind::Html => (html::Html {  }).query(query),
            SnippetKind::Text => (text::Text {  }).query(query),
        }
    }

    fn is_kind(&self, filepath: &str) -> (b: bool) {
        match self {
            SnippetKind::Todo => (todo::Todo {  }).is_kind(filepath),
            SnippetKind::Clang => (c::Clang {  }).is_kind(filepath),
            SnippetKind::Html => (html::Html {  }).is_kind(filepath),
            SnippetKind::Text => (text::Text {  }).is_kind(filepath),
        }
    }

    fn display_str(&self) -> (s: &'static str) {
        match self {
            SnippetKind::Todo => (todo::Todo {  }).display_str(),
            SnippetKind::Clang => (c::Clang {  }).display_str(),
            SnippetKind::Html => (html::Html {  }).display_str(),
            SnippetKind::Text => (text::Text {  }).display_str(),
        }
    }
}

/// The catalogue for the file at `path`: the first whose predicate accepts
/// the path, the plain-text catalogue accepting every path.
pub fn get_snippets(path: &str) -> (kind: SnippetKind)
    ensures
        kind == select_snippets(path@),
{
    if (todo::Todo {  }).is_kind(path) {
        SnippetKind::Todo
    } else if (c::Clang {  }).is_kind(path) {
        SnippetKind::Clang
    } else if (html::Html {  }).is_kind(path) {
        SnippetKind::Html
    } else {
        SnippetKind::Text
    }
}

/// The vector that holds the one string `a`.
pub fn one_line(a: &str) -> (lines: Vec<String>)
    ensures
        lines_view(lines@) == seq![a@],
{
    let mut lines: Vec<String> = Vec::new();
    let s = String::from_str(a);
    lines.push(s);
    assert(lines_view(lines@) =~= seq![a@]);
    lines
}

/// `lines` with the string `a` added at its end.
pub fn with_line(lines: Vec<String>, a: &str) -> (more: Vec<String>)
    ensures
        lines_view(more@) == lines_view(lines@).push(a@),
{
    let mut more = lines;
    let s = String::from_str(a);
    more.push(s);
    assert(lines_view(more@) =~= lines_view(lines@).push(a@));
    more
}

/// The vector that holds no string.
pub fn no_lines() -> (lines: Vec<String>)
    ensures
        lines_view(lines@) == Seq::<Seq<char>>::empty(),
{
    let lines: Vec<String> = Vec::new();
    assert(lines_view(lines@) =~= Seq::<Seq<char>>::empty());
    lines
}

} // verus!
