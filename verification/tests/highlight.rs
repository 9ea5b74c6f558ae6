use bim::languages::c::Clang;
use bim::languages::forest::Forest;
use bim::languages::go::Golang;
use bim::languages::haskell::Haskell;
use bim::languages::markdown::Markdown;
use bim::languages::rust::Rust;
use bim::languages::text::Text;
use bim::languages::tinylisp::Tinylisp;
use bim::languages::todo::Todo;
use bim::languages::zig::Zig;
use bim::languages::{get_lang, Language, LanguageKind, StyledChar};

const DIM: &str = "\x1b[2m";
const GREEN: &str = "\x1b[32m";
const CYAN: &str = "\x1b[36m";
const NUM: &str = "\x1b[1;34m";
const RED: &str = "\x1b[31m";
const YELLOW: &str = "\x1b[33m";
const MAGENTA: &str = "\x1b[35m";

fn lines(text: &[&str]) -> Vec<String> {
    text.iter().map(|s| s.to_string()).collect()
}

fn styles(row: &[StyledChar]) -> Vec<&'static str> {
    row.iter().map(|g| g.style).collect()
}

fn text_of(row: &[StyledChar]) -> String {
    row.iter().map(|g| g.ch).collect()
}

fn one_glyph_per_character(lang: &dyn Language, text: &[&str]) {
    let grid = lang.highlight(&lines(text));
    assert_eq!(grid.len(), text.len());
    for (row, line) in grid.iter().zip(text) {
        assert_eq!(text_of(row), *line);
    }
}

#[test]
fn styled_char_constructors() {
    let g = StyledChar::from_char('x');
    assert_eq!(g.style, "");
    assert_eq!(g.ch, 'x');
    let row = StyledChar::from_string("ab");
    assert_eq!(text_of(&row), "ab");
    assert_eq!(styles(&row), vec!["", ""]);
    let row = StyledChar::colour_string("héllo", GREEN);
    assert_eq!(text_of(&row), "héllo");
    assert_eq!(styles(&row), vec![GREEN; 5]);
    assert!(StyledChar::colour_string("", GREEN).is_empty());
}

#[test]
fn every_highlighter_gives_one_glyph_per_character() {
    let text = [
        "fn main() { // comment",
        "    let s = \"str\\\"ing\"; /* open",
        "still */ let c = 'x'; let d = '\\n'; 42",
        "",
        "# heading  ",
        "[ ] task   ",
        "(def x \"a b\") (+ 1 2)  ",
        "dup \"a b\" 12 swap   ",
    ];
    one_glyph_per_character(&Rust {}, &text);
    one_glyph_per_character(&Markdown {}, &text);
    one_glyph_per_character(&Forest {}, &text);
    one_glyph_per_character(&Tinylisp {}, &text);
    one_glyph_per_character(&Todo {}, &text);
    one_glyph_per_character(&Text {}, &text);
    one_glyph_per_character(&Clang {}, &text);
    one_glyph_per_character(&Haskell {}, &text);
    one_glyph_per_character(&Zig {}, &text);
    one_glyph_per_character(&Golang {}, &text);
    for kind in [
        LanguageKind::Rust,
        LanguageKind::Markdown,
        LanguageKind::Forest,
        LanguageKind::Tinylisp,
        LanguageKind::Haskell,
        LanguageKind::Todo,
        LanguageKind::Clang,
        LanguageKind::Zig,
        LanguageKind::Text,
    ] {
        one_glyph_per_character(&kind, &text);
    }
}

#[test]
fn highlighting_twice_gives_the_same_grid() {
    let text = lines(&["/* a", "b */ \"c\" 'd' 5 // e", "x"]);
    for kind in [LanguageKind::Rust, LanguageKind::Markdown, LanguageKind::Tinylisp] {
        let first = kind.highlight(&text);
        let second = kind.highlight(&text);
        assert!(first == second);
    }
}

#[test]
fn rust_line_comment() {
    let grid = (Rust {}).highlight(&lines(&["a // b", "c"]));
    assert_eq!(styles(&grid[0]), vec!["", "", DIM, DIM, DIM, DIM]);
    assert_eq!(styles(&grid[1]), vec![""]);
}

#[test]
fn rust_block_comment_carries_over_lines() {
    let grid = (Rust {}).highlight(&lines(&["a /* b", "c", "d */ e"]));
    assert_eq!(styles(&grid[0]), vec!["", "", DIM, DIM, DIM, DIM]);
    assert_eq!(styles(&grid[1]), vec![DIM]);
    assert_eq!(styles(&grid[2]), vec![DIM, DIM, DIM, DIM, "", ""]);
}

#[test]
fn rust_string_with_escaped_quote() {
    let grid = (Rust {}).highlight(&lines(&["\"a\\\"b\" c"]));
    assert_eq!(styles(&grid[0]), vec![GREEN, GREEN, GREEN, GREEN, GREEN, GREEN, "", ""]);
}

#[test]
fn rust_string_carries_over_lines() {
    let grid = (Rust {}).highlight(&lines(&["\"a", "b\" c"]));
    assert_eq!(styles(&grid[0]), vec![GREEN, GREEN]);
    assert_eq!(styles(&grid[1]), vec![GREEN, GREEN, "", ""]);
}

#[test]
fn rust_character_literals() {
    let grid = (Rust {}).highlight(&lines(&["'a' b"]));
    assert_eq!(styles(&grid[0]), vec![CYAN, CYAN, CYAN, "", ""]);
    let grid = (Rust {}).highlight(&lines(&["'\\n' b"]));
    assert_eq!(styles(&grid[0]), vec![CYAN, CYAN, CYAN, CYAN, "", ""]);
    let grid = (Rust {}).highlight(&lines(&["'a b"]));
    assert_eq!(styles(&grid[0]), vec!["", "", "", ""]);
}

#[test]
fn rust_marks_every_digit_outside_literals() {
    let grid = (Rust {}).highlight(&lines(&["x 12 \"3\""]));
    assert_eq!(styles(&grid[0]), vec!["", "", NUM, NUM, "", GREEN, GREEN, GREEN]);
}

#[test]
fn rust_state_is_reset_for_every_document() {
    let rust = Rust {};
    let open = rust.highlight(&lines(&["/* open"]));
    assert_eq!(styles(&open[0])[6], DIM);
    let next = rust.highlight(&lines(&["code"]));
    assert_eq!(styles(&next[0]), vec![""; 4]);
}

#[test]
fn markdown_headings() {
    let grid = (Markdown {}).highlight(&lines(&["# a", "## b", "text", "####### c", "###"]));
    assert_eq!(styles(&grid[0]), vec![DIM, NUM, NUM]);
    assert_eq!(styles(&grid[1]), vec![DIM, DIM, MAGENTA, MAGENTA]);
    assert_eq!(styles(&grid[2]), vec![""; 4]);
    assert_eq!(styles(&grid[3]), vec![DIM, DIM, DIM, DIM, DIM, DIM, DIM, "", ""]);
    assert_eq!(styles(&grid[4]), vec![DIM, DIM, DIM]);
    let levels = (Markdown {}).highlight(&lines(&["### x", "#### x", "##### x", "###### x"]));
    assert_eq!(levels[0][4].style, GREEN);
    assert_eq!(levels[1][5].style, YELLOW);
    assert_eq!(levels[2][6].style, RED);
    assert_eq!(levels[3][7].style, CYAN);
}

#[test]
fn todo_marks() {
    let todo = Todo {};
    let style = |line: &str| todo.highlight(&lines(&[line]))[0][0].style;
    assert_eq!(style("[ ] open"), YELLOW);
    assert_eq!(style("  [ ]! urgent"), RED);
    assert_eq!(style("[ ]~ maybe"), CYAN);
    assert_eq!(style("[ ]P parked"), MAGENTA);
    assert_eq!(style("[V] done"), GREEN);
    assert_eq!(style("> note"), "");
    assert_eq!(style("$ cost"), "\x1b[3m");
    assert_eq!(style("other"), DIM);
    assert_eq!(style("[ ] "), DIM);
    assert_eq!(style("[V]x"), DIM);
}

#[test]
fn tinylisp_tokens() {
    let grid = (Tinylisp {}).highlight(&lines(&["(def x \"a b\")"]));
    assert_eq!(
        styles(&grid[0]),
        vec![
            "", YELLOW, YELLOW, YELLOW, YELLOW, "", "", GREEN, GREEN, GREEN, GREEN, GREEN, "",
        ]
    );
    let grid = (Tinylisp {}).highlight(&lines(&["(+ 12 nil)"]));
    assert_eq!(
        styles(&grid[0]),
        vec!["", CYAN, CYAN, NUM, NUM, NUM, RED, RED, RED, ""],
    );
}

#[test]
fn forest_tokens() {
    let grid = (Forest {}).highlight(&lines(&["dup 12 \"a b\" x"]));
    assert_eq!(
        styles(&grid[0]),
        vec![
            MAGENTA, MAGENTA, MAGENTA, MAGENTA, CYAN, CYAN, CYAN, GREEN, GREEN, GREEN, GREEN,
            GREEN, GREEN, "",
        ]
    );
}

#[test]
fn plugins_are_probed_in_order() {
    assert!(get_lang("main.rs") == LanguageKind::Rust);
    assert!(get_lang("README.md") == LanguageKind::Markdown);
    assert!(get_lang("a.frt") == LanguageKind::Forest);
    assert!(get_lang("a.tlp") == LanguageKind::Tinylisp);
    assert!(get_lang("a.hs") == LanguageKind::Haskell);
    assert!(get_lang("list.todo") == LanguageKind::Todo);
    assert!(get_lang("a.c") == LanguageKind::Clang);
    assert!(get_lang("a.cpp") == LanguageKind::Clang);
    assert!(get_lang("a.h") == LanguageKind::Clang);
    assert!(get_lang("a.zig") == LanguageKind::Zig);
    assert!(get_lang("a.go") == LanguageKind::Text);
    assert!(get_lang("a.rs.bak") == LanguageKind::Text);
    assert!(get_lang("") == LanguageKind::Text);
    assert!(get_lang("// use-ext: .rs") == LanguageKind::Rust);
}

#[test]
fn indent_sizes_and_names() {
    assert_eq!((Rust {}).indent_size(), 4);
    assert_eq!((Markdown {}).indent_size(), 4);
    assert_eq!((Forest {}).indent_size(), 4);
    assert_eq!((Tinylisp {}).indent_size(), 2);
    assert_eq!((Haskell {}).indent_size(), 2);
    assert_eq!((Todo {}).indent_size(), 2);
    assert_eq!((Clang {}).indent_size(), 4);
    assert_eq!((Zig {}).indent_size(), 4);
    assert_eq!((Golang {}).indent_size(), 4);
    assert_eq!((Text {}).indent_size(), 2);
    assert_eq!(LanguageKind::Rust.indent_size(), 4);
    assert_eq!(LanguageKind::Text.indent_size(), 2);
    assert_eq!((Text {}).display_str(), "Text");
    assert_eq!((Forest {}).display_str(), "Forest");
    assert_eq!(LanguageKind::Tinylisp.display_str(), "Tinylisp");
    assert_eq!((Golang {}).display_str(), "Go");
    assert!((Golang {}).is_kind("main.go"));
    assert!((Text {}).is_kind("anything"));
    assert!(!(Rust {}).is_kind("main.go"));
}
