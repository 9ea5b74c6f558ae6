use bim::buffer::{Buffer, Mode};
use bim::files::{Effect, Resume};
use bim::input::{handle_event, handle_key};
use bim::keys::{get_matching_brace, is_close_bracket, Key, Mods};

fn lines(text: &[&str]) -> Vec<String> {
    text.iter().map(|s| s.to_string()).collect()
}

fn buffer_at(path: &str, text: &[&str], line: usize, idx: usize) -> Buffer {
    let mut buf = Buffer::new(path, lines(text), false);
    buf.cursor_pos.line = line;
    buf.cursor_pos.idx = idx;
    buf.mode = Mode::Default;
    buf
}

fn press(buf: &mut Buffer, key: Key) -> Effect {
    handle_event(buf, key, &Mods::Plain, 24, 80)
}

fn alt(buf: &mut Buffer, c: char) -> Effect {
    handle_event(buf, Key::Char(c), &Mods::Alt, 24, 80)
}

fn cursor(buf: &Buffer) -> (usize, usize) {
    (buf.cursor_pos.line, buf.cursor_pos.idx)
}

#[test]
fn matching_braces() {
    assert_eq!(get_matching_brace('['), ']');
    assert_eq!(get_matching_brace('{'), '}');
    assert_eq!(get_matching_brace('('), ')');
    assert_eq!(get_matching_brace('x'), 'x');
    assert_eq!(get_matching_brace(')'), ')');
    assert!(is_close_bracket(')'));
    assert!(is_close_bracket(']'));
    assert!(is_close_bracket('}'));
    assert!(!is_close_bracket('('));
    assert!(!is_close_bracket('a'));
}

#[test]
fn open_brace_at_end_of_line_is_paired() {
    let mut buf = buffer_at("a.rs", &["fn a() ", "", "}"], 0, 7);
    press(&mut buf, Key::Char('{'));
    assert_eq!(buf.contents, lines(&["fn a() {}", "", "}"]));
    assert_eq!(cursor(&buf), (0, 8));
    assert_eq!(buf.indent_lvl, 1);
}

#[test]
fn open_brace_before_whitespace_is_paired() {
    let mut buf = buffer_at("a.rs", &["f x"], 0, 1);
    press(&mut buf, Key::Char('('));
    assert_eq!(buf.contents, lines(&["f() x"]));
    assert_eq!(cursor(&buf), (0, 2));
}

#[test]
fn open_brace_before_a_closing_bracket_is_paired() {
    let mut buf = buffer_at("a.rs", &["()"], 0, 1);
    press(&mut buf, Key::Char('['));
    assert_eq!(buf.contents, lines(&["([])"]));
    assert_eq!(cursor(&buf), (0, 2));
}

#[test]
fn open_brace_before_other_text_is_not_paired() {
    let mut buf = buffer_at("a.rs", &["fn a() x"], 0, 7);
    press(&mut buf, Key::Char('{'));
    assert_eq!(buf.contents, lines(&["fn a() {x"]));
    assert_eq!(cursor(&buf), (0, 8));
    assert_eq!(buf.indent_lvl, 1);
}

#[test]
fn close_brace_over_the_same_brace_is_not_doubled() {
    let mut buf = buffer_at("a.rs", &["f()"], 0, 2);
    buf.indent_lvl = 1;
    press(&mut buf, Key::Char(')'));
    assert_eq!(buf.contents, lines(&["f()"]));
    assert_eq!(cursor(&buf), (0, 3));
    assert_eq!(buf.indent_lvl, 0);
}

#[test]
fn close_brace_elsewhere_is_typed_and_dedents() {
    let mut buf = buffer_at("a.rs", &["f(x"], 0, 3);
    buf.indent_lvl = 0;
    press(&mut buf, Key::Char(')'));
    assert_eq!(buf.contents, lines(&["f(x)"]));
    assert_eq!(cursor(&buf), (0, 4));
    assert_eq!(buf.indent_lvl, 0);
}

#[test]
fn paste_mode_does_not_pair() {
    let mut buf = buffer_at("a.rs", &[""], 0, 0);
    buf.mode = Mode::Paste;
    press(&mut buf, Key::Char('{'));
    assert_eq!(buf.contents, lines(&["{"]));
    assert_eq!(buf.indent_lvl, 0);
}

#[test]
fn enter_between_braces_expands_them() {
    let mut buf = buffer_at("a.rs", &["fn a() {}"], 0, 8);
    buf.indent_lvl = 1;
    press(&mut buf, Key::Enter);
    assert_eq!(buf.contents, lines(&["fn a() {", "    ", "}"]));
    assert_eq!(cursor(&buf), (1, 4));
    assert_eq!(buf.indent_lvl, 1);
}

#[test]
fn enter_elsewhere_splits_the_line() {
    let mut buf = buffer_at("a.rs", &["hello world"], 0, 5);
    buf.indent_lvl = 1;
    press(&mut buf, Key::Enter);
    assert_eq!(buf.contents, lines(&["hello", "     world"]));
    assert_eq!(cursor(&buf), (1, 4));
}

#[test]
fn printable_keys_go_to_the_prompt_of_the_mode() {
    let mut buf = buffer_at("t", &["text"], 0, 0);
    buf.mode = Mode::Find;
    press(&mut buf, Key::Char('a'));
    press(&mut buf, Key::Char('b'));
    assert_eq!(buf.find_str, "ab");
    press(&mut buf, Key::Backspace);
    assert_eq!(buf.find_str, "a");
    buf.mode = Mode::ReplaceStr;
    press(&mut buf, Key::Char('c'));
    assert_eq!(buf.replace_str, "c");
    press(&mut buf, Key::Backspace);
    press(&mut buf, Key::Backspace);
    assert_eq!(buf.replace_str, "");
    buf.mode = Mode::Goto;
    press(&mut buf, Key::Char('7'));
    assert_eq!(buf.temp_str, "7");
    press(&mut buf, Key::Backspace);
    assert_eq!(buf.temp_str, "");
    assert_eq!(buf.contents, lines(&["text"]));
}

#[test]
fn replace_mode_overwrites() {
    let mut buf = buffer_at("t", &["abc"], 0, 1);
    buf.mode = Mode::Replace;
    press(&mut buf, Key::Char('X'));
    assert_eq!(buf.contents, lines(&["aXc"]));
    assert_eq!(cursor(&buf), (0, 2));
}

#[test]
fn delete_removes_right_of_the_cursor() {
    let mut buf = buffer_at("t", &["abc"], 0, 1);
    press(&mut buf, Key::Delete);
    assert_eq!(buf.contents, lines(&["ac"]));
    assert_eq!(cursor(&buf), (0, 1));
}

#[test]
fn arrows_home_and_end() {
    let mut buf = buffer_at("t", &["abc", "de"], 0, 1);
    press(&mut buf, Key::End);
    assert_eq!(cursor(&buf), (0, 3));
    press(&mut buf, Key::Down);
    assert_eq!(cursor(&buf), (1, 2));
    press(&mut buf, Key::Home);
    assert_eq!(cursor(&buf), (1, 0));
    press(&mut buf, Key::Left);
    assert_eq!(cursor(&buf), (0, 3));
    press(&mut buf, Key::Right);
    assert_eq!(cursor(&buf), (1, 0));
    press(&mut buf, Key::Up);
    assert_eq!(cursor(&buf), (0, 0));
    press(&mut buf, Key::Other);
    assert_eq!(cursor(&buf), (0, 0));
}

#[test]
fn escape_goes_to_the_home_mode() {
    let mut buf = buffer_at("t", &["a"], 0, 0);
    buf.mode = Mode::Find;
    press(&mut buf, Key::Esc);
    assert!(buf.mode == Mode::Default);
    let mut buf = Buffer::new("t", lines(&["a"]), true);
    buf.mode = Mode::Find;
    press(&mut buf, Key::Esc);
    assert!(buf.mode == Mode::Nav);
}

#[test]
fn prompts_return_to_nav_when_configured() {
    let mut buf = Buffer::new("t", lines(&["a", "b", "c"]), true);
    buf.mode = Mode::Goto;
    buf.temp_str = "2".to_string();
    press(&mut buf, Key::Enter);
    assert!(buf.mode == Mode::Nav);
    assert_eq!(buf.cursor_pos.line, 1);
}

#[test]
fn switch_prompt_sets_the_mode_by_name() {
    let mut buf = buffer_at("t", &["a"], 0, 0);
    alt(&mut buf, 'x');
    assert!(buf.mode == Mode::Switch);
    for c in " kl ".chars() {
        press(&mut buf, Key::Char(c));
    }
    press(&mut buf, Key::Enter);
    assert!(buf.mode == Mode::KillLines);
    assert_eq!(buf.temp_str, "");
}

#[test]
fn snippet_prompt_inserts_indented_lines() {
    let mut buf = buffer_at("x.c", &["int main() {", "}"], 0, 0);
    buf.indent_lvl = 1;
    buf.mode = Mode::Snippet;
    buf.temp_str = "std".to_string();
    press(&mut buf, Key::Enter);
    assert_eq!(
        buf.contents,
        lines(&["int main() {", "    #include <stdio.h>", "    #include <stdlib.h>", "}"])
    );
    assert!(buf.mode == Mode::Default);
    assert!(buf.alert.contents.is_empty());
}

#[test]
fn snippet_miss_is_reported() {
    let mut buf = buffer_at("x.c", &["a"], 0, 0);
    buf.mode = Mode::Snippet;
    buf.temp_str = "nothing".to_string();
    press(&mut buf, Key::Enter);
    assert_eq!(buf.contents, lines(&["a"]));
    assert_eq!(buf.alert.contents, vec!["Invalid request".to_string()]);
    assert!(buf.mode == Mode::Default);
}

#[test]
fn open_file_prompt_asks_for_a_reload() {
    let mut buf = buffer_at("old.txt", &["text  "], 0, 0);
    buf.mode = Mode::OpenFile;
    buf.temp_str = "new.rs".to_string();
    match press(&mut buf, Key::Enter) {
        Effect::Reload(Some(w), resume) => {
            assert!(resume == Resume::Opened);
            assert_eq!(w.path, "old.txt");
            assert_eq!(w.content, "text\n");
        }
        _ => panic!("a reload with a write was expected"),
    }
    assert_eq!(buf.filepath, "new.rs");
    assert_eq!(buf.buffer_history.hist, lines(&["old.txt", "new.rs"]));
    assert_eq!(buf.buffer_history.head, 1);
    let w = buf.resume(Resume::Opened, lines(&["fn main() {}"]));
    assert!(w.is_none());
    assert!(buf.flag("changed"));
    assert_eq!(buf.contents, lines(&["fn main() {}"]));
    assert!(buf.lang == bim::languages::LanguageKind::Rust);
    assert!(buf.mode == Mode::Default);
}

#[test]
fn alt_keys_edit_without_leaving_the_mode() {
    let mut buf = buffer_at("t", &["a", "b"], 0, 1);
    alt(&mut buf, 'y');
    assert_eq!(buf.contents, lines(&["a", "a", "b"]));
    assert_eq!(buf.cursor_pos.line, 1);
    alt(&mut buf, 'l');
    assert_eq!(buf.contents, lines(&["a", "b"]));
    alt(&mut buf, '.');
    alt(&mut buf, '.');
    assert_eq!(buf.indent_lvl, 2);
    alt(&mut buf, ',');
    assert_eq!(buf.indent_lvl, 1);
    alt(&mut buf, '0');
    assert_eq!(buf.indent_lvl, 0);
    assert!(buf.mode == Mode::Default);
}

#[test]
fn alt_find_and_replace_toggle_their_prompts() {
    let mut buf = buffer_at("t", &["a"], 0, 0);
    buf.find_str = "x".to_string();
    alt(&mut buf, '/');
    assert!(buf.mode == Mode::Find);
    assert_eq!(buf.find_str, "");
    alt(&mut buf, '/');
    assert!(buf.mode == Mode::Default);
    buf.replace_str = "y".to_string();
    alt(&mut buf, 'r');
    assert!(buf.mode == Mode::ReplaceStr);
    assert_eq!(buf.replace_str, "");
    alt(&mut buf, 'r');
    assert!(buf.mode == Mode::Default);
}

#[test]
fn quitting_and_closing() {
    let mut buf = buffer_at("t", &["a"], 0, 0);
    assert!(matches!(alt(&mut buf, 'Q'), Effect::Quit));
    assert!(matches!(alt(&mut buf, 'q'), Effect::Quit));
    buf.visit("u");
    assert_eq!(buf.buffer_history.head, 1);
    match alt(&mut buf, 'q') {
        Effect::Reload(None, resume) => assert!(resume == Resume::Closed),
        _ => panic!("a reload was expected"),
    }
    assert_eq!(buf.buffer_history.hist, lines(&["t"]));
    assert_eq!(buf.buffer_history.head, 0);
    assert_eq!(buf.filepath, "t");
}

#[test]
fn control_keys_cycle_through_the_history() {
    let mut buf = buffer_at("*scratch", &["a"], 0, 0);
    buf.visit("b");
    buf.visit("c");
    let effect = handle_key(&mut buf, Key::Char('n'), &Mods::Ctrl, 24);
    assert!(matches!(effect, Effect::Reload(_, Resume::Cycled)));
    assert_eq!(buf.buffer_history.head, 0);
    assert_eq!(buf.filepath, "*scratch");
    handle_key(&mut buf, Key::Char('p'), &Mods::Ctrl, 24);
    assert_eq!(buf.buffer_history.head, 2);
    assert_eq!(buf.filepath, "c");
    handle_key(&mut buf, Key::Char('p'), &Mods::Ctrl, 24);
    assert_eq!(buf.buffer_history.head, 1);
    handle_key(&mut buf, Key::Char('b'), &Mods::Ctrl, 24);
    assert_eq!(buf.alert.contents, lines(&["  *scratch", "> b", "  c"]));
    assert_eq!(buf.alert.timeout, 5_000_000);
}

#[test]
fn control_alt_keys_change_the_configuration() {
    let mut buf = buffer_at("t", &["a"], 0, 0);
    assert!(buf.flag("showbottombar"));
    handle_key(&mut buf, Key::Char('B'), &Mods::CtrlAlt, 24);
    assert!(!buf.flag("showbottombar"));
    handle_key(&mut buf, Key::Char('B'), &Mods::CtrlAlt, 24);
    assert!(buf.flag("showbottombar"));
    let shown = |buf: &Buffer| buf.var("line-num-type").map(|v| v.display());
    assert_eq!(shown(&buf), Some("relative".to_string()));
    handle_key(&mut buf, Key::Char('L'), &Mods::CtrlAlt, 24);
    assert_eq!(shown(&buf), Some("none".to_string()));
    handle_key(&mut buf, Key::Char('L'), &Mods::CtrlAlt, 24);
    assert_eq!(shown(&buf), Some("absolute".to_string()));
    handle_key(&mut buf, Key::Char('L'), &Mods::CtrlAlt, 24);
    assert_eq!(shown(&buf), Some("relative".to_string()));
}

#[test]
fn entering_nav_mode_makes_it_the_home_mode() {
    let mut buf = buffer_at("t", &["a"], 0, 0);
    buf.temp_str = "x".to_string();
    alt(&mut buf, 'N');
    assert!(buf.mode == Mode::Nav);
    assert!(buf.flag("ret-to-nav"));
    assert_eq!(buf.temp_str, "");
}

#[test]
fn open_brace_after_an_open_brace_at_the_end_of_a_line() {
    let mut buf = buffer_at("a.rs", &["fn a() {", "", "}"], 0, 8);
    press(&mut buf, Key::Char('{'));
    assert_eq!(buf.contents, lines(&["fn a() {{}", "", "}"]));
    assert_eq!(cursor(&buf), (0, 9));
    let mut buf = buffer_at("a.rs", &["fn a() {x", "", "}"], 0, 8);
    press(&mut buf, Key::Char('{'));
    assert_eq!(buf.contents, lines(&["fn a() {{x", "", "}"]));
    assert_eq!(cursor(&buf), (0, 9));
}
