use bim::autocomplete::default::optimized_levenshtein_distance;
use bim::autocomplete::markdown::Markdown;
use bim::autocomplete::{
    get_autocomplete_engine, isnt_token_char, AutoComplete, Engine, UpdateRequest,
};
use bim::buffer::{Buffer, Mode};
use bim::input::handle_event;
use bim::keys::{Key, Mods};

fn lines(text: &[&str]) -> Vec<String> {
    text.iter().map(|s| s.to_string()).collect()
}

fn buffer_at(path: &str, text: &[&str], line: usize, idx: usize) -> Buffer {
    let mut buf = Buffer::new(path, lines(text), false);
    buf.cursor_pos.line = line;
    buf.cursor_pos.idx = idx;
    buf.mode = Mode::Default;
    buf
}

fn engine_with(tokens: &[&str]) -> bim::autocomplete::default::Default {
    let mut engine = bim::autocomplete::default::Default::new();
    for t in tokens {
        let text = lines(&[t]);
        engine.add_tokens(UpdateRequest::Whole { filepath: "f", new_contents: &text });
    }
    engine
}

fn rank(query: &str, tokens: &[&str]) -> Vec<String> {
    let engine = engine_with(tokens);
    let buf = buffer_at("f", &[query], 0, query.chars().count());
    engine.get_candidates(&buf).0
}

#[test]
fn distance_examples() {
    assert_eq!(optimized_levenshtein_distance("", ""), 0);
    assert_eq!(optimized_levenshtein_distance("", "abc"), 3);
    assert_eq!(optimized_levenshtein_distance("abc", ""), 3);
    assert_eq!(optimized_levenshtein_distance("cat", "cat"), 0);
    assert_eq!(optimized_levenshtein_distance("cat", "bat"), 1);
    assert_eq!(optimized_levenshtein_distance("cat", "dog"), 3);
    assert_eq!(optimized_levenshtein_distance("a", "bb"), 2);
    assert_eq!(optimized_levenshtein_distance("kitten", "sitting"), 3);
    assert_eq!(optimized_levenshtein_distance("flaw", "lawn"), 2);
    assert_eq!(optimized_levenshtein_distance("saturday", "sunday"), 3);
    assert_eq!(optimized_levenshtein_distance("ab", "ba"), 2);
    assert_eq!(optimized_levenshtein_distance("añb", "anb"), 1);
}

#[test]
fn distance_is_symmetric_on_examples() {
    for (a, b) in [("kitten", "sitting"), ("", "x"), ("abc", "yabd"), ("a", "bb")] {
        assert_eq!(
            optimized_levenshtein_distance(a, b),
            optimized_levenshtein_distance(b, a)
        );
    }
}

#[test]
fn exact_match_ranks_first() {
    assert_eq!(rank("cat", &["cat", "bat", "dog"]), lines(&["cat", "bat", "dog"]));
    assert_eq!(rank("cat", &["dog", "bat", "cat"]), lines(&["cat", "bat", "dog"]));
    assert_eq!(optimized_levenshtein_distance("cat", &rank("cat", &["dog", "cat"])[0]), 0);
}

#[test]
fn empty_query_ranks_by_length_with_stable_ties() {
    assert_eq!(
        rank("", &["ccc", "a", "bb", "d", "ee", "fff"]),
        lines(&["a", "d", "bb", "ee", "ccc", "fff"])
    );
}

#[test]
fn ties_keep_insertion_order() {
    assert_eq!(rank("x", &["b", "a", "c"]), lines(&["b", "a", "c"]));
    assert_eq!(rank("x", &["c", "a", "b"]), lines(&["c", "a", "b"]));
}

#[test]
fn query_length_counts_characters() {
    let engine = engine_with(&["héllo"]);
    let buf = buffer_at("f", &["say hél"], 0, 7);
    let (found, len) = engine.get_candidates(&buf);
    assert_eq!(len, 3);
    assert_eq!(found, lines(&["héllo"]));
    let buf = buffer_at("f", &["say hél"], 0, 4);
    assert_eq!(engine.get_candidates(&buf).1, 0);
    let buf = buffer_at("f", &["a_b-c'd"], 0, 7);
    assert_eq!(engine.get_candidates(&buf).1, 7);
}

#[test]
fn token_characters() {
    assert!(!isnt_token_char('a'));
    assert!(!isnt_token_char('7'));
    assert!(!isnt_token_char('_'));
    assert!(!isnt_token_char('-'));
    assert!(!isnt_token_char('\''));
    assert!(!isnt_token_char('é'));
    assert!(isnt_token_char(' '));
    assert!(isnt_token_char('.'));
    assert!(isnt_token_char('('));
}

#[test]
fn tokens_are_stored_once_in_order() {
    let mut engine = bim::autocomplete::default::Default::new();
    let text = lines(&["let x = y;", "let y"]);
    engine.add_tokens(UpdateRequest::Whole { filepath: "f", new_contents: &text });
    let buf = buffer_at("f", &[""], 0, 0);
    assert_eq!(engine.get_candidates(&buf).0, lines(&["x", "y", "let"]));
    engine.add_tokens(UpdateRequest::Whole { filepath: "f", new_contents: &text });
    assert_eq!(engine.get_candidates(&buf).0.len(), 3);
}

#[test]
fn tokens_do_not_span_lines() {
    let mut engine = bim::autocomplete::default::Default::new();
    let text = lines(&["ab", "cd"]);
    engine.add_tokens(UpdateRequest::Whole { filepath: "f", new_contents: &text });
    let buf = buffer_at("f", &[""], 0, 0);
    assert_eq!(engine.get_candidates(&buf).0, lines(&["ab", "cd"]));
}

#[test]
fn engine_is_chosen_by_the_path() {
    assert!(matches!(get_autocomplete_engine("notes.md"), Engine::Markdown(_)));
    assert!(matches!(get_autocomplete_engine("main.rs"), Engine::Default(_)));
    assert_eq!(get_autocomplete_engine("notes.md").display_str(), "Markdown");
    assert_eq!(get_autocomplete_engine("main.rs").display_str(), "Text");
    assert!((Markdown {}).is_kind("a.md"));
    assert!(!(Markdown {}).is_kind("a.rs"));
    assert!(bim::autocomplete::default::Default::new().is_kind("a.rs"));
}

#[test]
fn markdown_engine_completes_symbol_names() {
    let buf = buffer_at("n.md", &["angle delta"], 0, 11);
    let (found, len) = (Markdown {}).get_candidates(&buf);
    assert_eq!(found, lines(&["δ"]));
    assert_eq!(len, 5);
    let buf = buffer_at("n.md", &["unknown"], 0, 7);
    assert_eq!((Markdown {}).get_candidates(&buf).0, lines(&[""]));
}

#[test]
fn picking_a_candidate_replaces_the_query() {
    let mut buf = buffer_at("f.txt", &["hello help", "hel"], 1, 3);
    buf.add_tokens();
    handle_event(&mut buf, Key::Char('1'), &Mods::Alt, 24, 80);
    assert_eq!(buf.contents[1], "hel");
    buf.contents[1] = "hep".to_string();
    buf.cursor_pos.idx = 3;
    handle_event(&mut buf, Key::Char('1'), &Mods::Alt, 24, 80);
    assert_eq!(buf.contents[1], "help");
    assert_eq!(buf.cursor_pos.idx, 4);
    buf.contents[1] = "x hep y".to_string();
    buf.cursor_pos.idx = 5;
    handle_event(&mut buf, Key::Char('2'), &Mods::Alt, 24, 80);
    assert_eq!(buf.contents[1], "x hel y");
    assert_eq!(buf.cursor_pos.idx, 5);
}

#[test]
fn picking_a_missing_candidate_does_nothing() {
    let mut buf = buffer_at("f.txt", &["ab"], 0, 2);
    handle_event(&mut buf, Key::Char('3'), &Mods::Alt, 24, 80);
    assert_eq!(buf.contents, lines(&["ab"]));
    assert_eq!(buf.cursor_pos.idx, 2);
}

#[test]
fn listing_shows_at_most_five_candidates() {
    let mut buf = buffer_at("f.txt", &["a bb ccc dddd eeeee ffffff", ""], 1, 0);
    buf.add_tokens();
    handle_event(&mut buf, Key::Char('6'), &Mods::Alt, 24, 80);
    assert_eq!(
        buf.alert.contents,
        lines(&["1: `a`", "2: `bb`", "3: `ccc`", "4: `dddd`", "5: `eeeee`"])
    );
    assert_eq!(buf.alert.timeout, 500_000);
}

#[test]
fn markdown_buffer_picks_the_symbol() {
    let mut buf = buffer_at("n.md", &["x alpha y"], 0, 7);
    handle_event(&mut buf, Key::Char('1'), &Mods::Alt, 24, 80);
    assert_eq!(buf.contents, lines(&["x α y"]));
    assert_eq!(buf.cursor_pos.idx, 3);
}

#[test]
fn no_token_is_empty() {
    let mut engine = bim::autocomplete::default::Default::new();
    let buf = buffer_at("f", &[""], 0, 0);
    for text in [lines(&[""]), lines(&["", "  "]), lines(&["..", "a  b.", " "])] {
        engine.add_tokens(UpdateRequest::Whole { filepath: "f", new_contents: &text });
        assert!(engine.get_candidates(&buf).0.iter().all(|t| !t.is_empty()));
    }
    assert_eq!(engine.get_candidates(&buf).0, lines(&["a", "b"]));
    let mut empty = bim::autocomplete::default::Default::new();
    let text = lines(&[""]);
    empty.add_tokens(UpdateRequest::Whole { filepath: "f", new_contents: &text });
    assert!(empty.get_candidates(&buf).0.is_empty());
}

#[test]
fn tokens_hold_only_token_characters() {
    let mut engine = bim::autocomplete::default::Default::new();
    let text = lines(&["fn it's(a_b: c-d) -> é9 { x.y }"]);
    engine.add_tokens(UpdateRequest::Whole { filepath: "f", new_contents: &text });
    let buf = buffer_at("f", &[""], 0, 0);
    let found = engine.get_candidates(&buf).0;
    assert_eq!(found, lines(&["-", "x", "y", "fn", "é9", "a_b", "c-d", "it's"]));
    assert!(found.iter().all(|t| t.chars().all(|c| !isnt_token_char(c))));
}
