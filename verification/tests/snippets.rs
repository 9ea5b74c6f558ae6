use bim::snippets::c::Clang;
use bim::snippets::html::Html;
use bim::snippets::markdown::Markdown;
use bim::snippets::text::Text;
use bim::snippets::todo::Todo;
use bim::snippets::{get_snippets, Snippet, SnippetKind};
use bim::symbols::symbol_exec;

fn lines(text: &[&str]) -> Vec<String> {
    text.iter().map(|s| s.to_string()).collect()
}

#[test]
fn todo_snippets() {
    let todo = Todo {};
    assert_eq!(todo.query("newtask"), lines(&["[ ] "]));
    assert_eq!(todo.query(" n "), lines(&["[ ] "]));
    assert_eq!(todo.query("asap"), lines(&["[ ]!"]));
    assert_eq!(todo.query("a"), lines(&["[ ]!"]));
    assert!(todo.query("other").is_empty());
    assert!(todo.is_kind("x.todo"));
    assert!(!todo.is_kind("x.txt"));
    assert_eq!(todo.display_str(), "Ssorgn't");
}

#[test]
fn c_snippets() {
    let c = Clang {};
    assert_eq!(c.query("include"), lines(&["#include <>"]));
    assert_eq!(c.query("i"), lines(&["#include <>"]));
    assert_eq!(c.query("define"), lines(&["#define "]));
    assert_eq!(c.query("d"), lines(&["#define "]));
    assert_eq!(c.query("std"), lines(&["#include <stdio.h>", "#include <stdlib.h>"]));
    assert_eq!(
        c.query("struct"),
        lines(&["typedef struct {", "    type field;", "} name;"])
    );
    assert_eq!(c.query(" enum\t"), lines(&["typedef enum {", "    member,", "} name;"]));
    assert!(c.query("union").is_empty());
    assert!(c.is_kind("a.c"));
    assert!(c.is_kind("a.cpp"));
    assert!(!c.is_kind("a.h"));
    assert_eq!(c.display_str(), "PDP-11");
}

#[test]
fn html_snippets() {
    let html = Html {};
    let page = html.query("init");
    assert_eq!(page.len(), 10);
    assert_eq!(page[0], "<!DOCTYPE html>");
    assert_eq!(page[1], "<html lang=\"en\">");
    assert_eq!(page[3], "    <meta charset=\"utf-8\">");
    assert_eq!(page[9], "</html>");
    assert_eq!(html.query(" div "), lines(&["<div>", "    ", "</div>"]));
    assert_eq!(html.query(""), lines(&["<>", "    ", "</>"]));
    assert!(html.is_kind("index.html"));
    assert_eq!(html.display_str(), "html");
}

#[test]
fn markdown_snippets() {
    let md = Markdown {};
    assert_eq!(md.query("degree"), lines(&["°"]));
    assert_eq!(md.query("alpha"), lines(&["α"]));
    assert_eq!(md.query("Omega"), lines(&["Ω"]));
    assert_eq!(md.query("omega"), lines(&["ω"]));
    assert_eq!(md.query(" alpha"), lines(&[""]));
    assert_eq!(md.query("nothing"), lines(&[""]));
    assert!(md.is_kind("a.md"));
    assert_eq!(md.display_str(), "Markdown");
}

#[test]
fn symbol_table() {
    let names = [
        "alpha", "beta", "gamma", "delta", "epsilon", "zeta", "eta", "theta", "iota", "kappa",
        "lambda", "mu", "nu", "xi", "omicron", "pi", "rho", "sigma", "tau", "upsilon", "phi",
        "chi", "psi", "omega",
    ];
    let small = "αβγδεζηθικλμνξοπρστυφχψω";
    let capital = "ΑΒΓΔΕΖΗΘΙΚΛΜΝΞΟΠΡΣΤΥΦΧΨΩ";
    for (i, name) in names.iter().enumerate() {
        let s: String = small.chars().nth(i).into_iter().collect();
        assert_eq!(symbol_exec(name), s);
        let mut upper = name.to_string();
        upper[..1].make_ascii_uppercase();
        let c: String = capital.chars().nth(i).into_iter().collect();
        assert_eq!(symbol_exec(&upper), c);
    }
    assert_eq!(symbol_exec("ALPHA"), "");
}

#[test]
fn text_has_no_snippets() {
    assert!((Text {}).query("anything").is_empty());
    assert!((Text {}).is_kind("whatever"));
    assert_eq!((Text {}).display_str(), "Text");
}

#[test]
fn catalogues_are_probed_in_order() {
    assert!(get_snippets("x.todo") == SnippetKind::Todo);
    assert!(get_snippets("x.c") == SnippetKind::Clang);
    assert!(get_snippets("x.cpp") == SnippetKind::Clang);
    assert!(get_snippets("x.html") == SnippetKind::Html);
    assert!(get_snippets("x.md") == SnippetKind::Text);
    assert!(get_snippets("x") == SnippetKind::Text);
    assert_eq!(SnippetKind::Todo.query("n"), lines(&["[ ] "]));
    assert_eq!(SnippetKind::Html.display_str(), "html");
    assert!(SnippetKind::Clang.is_kind("x.c"));
    assert!(SnippetKind::Text.query("n").is_empty());
}
