use bim::autocomplete::{AutoComplete, Engine};
use bim::buffer::{savable, Buffer, Mode};
use bim::files::{Effect, Resume};
use bim::input::handle_key;
use bim::keys::{Key, Mods};
use bim::languages::{Language, LanguageKind};
use bim::snippets::SnippetKind;
use bim::text::split_lines_exec;

fn lines(text: &[&str]) -> Vec<String> {
    text.iter().map(|s| s.to_string()).collect()
}

#[test]
fn virtual_paths_are_not_savable() {
    assert!(!savable("*scratch"));
    assert!(!savable("*direx"));
    assert!(savable("scratch"));
    assert!(savable("*scratch2"));
    assert!(savable(""));
    assert!(savable("a/b.rs"));
}

#[test]
fn a_new_buffer_starts_in_nav_mode_at_the_top() {
    let buf = Buffer::new("main.rs", lines(&["fn main() {}", ""]), false);
    assert_eq!(buf.contents, lines(&["fn main() {}", ""]));
    assert_eq!((buf.cursor_pos.line, buf.cursor_pos.idx), (0, 0));
    assert_eq!(buf.top, 0);
    assert_eq!(buf.indent_lvl, 0);
    assert!(buf.mode == Mode::Nav);
    assert_eq!(buf.filepath, "main.rs");
    assert_eq!(buf.find_str, "");
    assert_eq!(buf.replace_str, "");
    assert_eq!(buf.temp_str, "");
    assert_eq!(buf.buffer_history.hist, lines(&["main.rs"]));
    assert_eq!(buf.buffer_history.head, 0);
    assert!(buf.alert.contents.is_empty());
    assert_eq!(buf.alert.timeout, 1_000_000);
    assert!(buf.flag("showbottombar"));
    assert!(buf.flag("changed"));
    assert!(!buf.flag("ret-to-nav"));
    assert!(!buf.flag("no-such-entry"));
    assert!(buf.var("no-such-entry").is_none());
    assert!(buf.lang == LanguageKind::Rust);
    assert!(buf.snippets == SnippetKind::Text);
    assert!(matches!(buf.autocomplete, Engine::Default(_)));
    assert!(buf.highlighted_contents == buf.lang.highlight(&buf.contents));
}

#[test]
fn a_buffer_without_lines_gets_one_empty_line() {
    let buf = Buffer::new("*scratch", Vec::new(), true);
    assert_eq!(buf.contents, lines(&[""]));
    assert_eq!(buf.highlighted_contents.len(), 1);
    assert!(buf.flag("ret-to-nav"));
    assert!(buf.nav_pro);
}

#[test]
fn the_first_line_can_choose_the_plugins() {
    let buf = Buffer::new("notes", lines(&["<!-- use-ext: .md -->", "# x"]), false);
    assert!(buf.lang == LanguageKind::Text);
    let buf = Buffer::new("notes", lines(&["<!-- use-ext: .md", "# x"]), false);
    assert!(buf.lang == LanguageKind::Markdown);
    let buf = Buffer::new("notes", lines(&["// use-ext: .rs", "x"]), false);
    assert!(buf.lang == LanguageKind::Rust);
    let buf = Buffer::new("notes.rs", lines(&["# use-ext: x.todo", "x"]), false);
    assert!(buf.lang == LanguageKind::Todo);
    assert!(buf.snippets == SnippetKind::Todo);
    let buf = Buffer::new("notes.rs", lines(&["use-ext: a.md"]), false);
    assert!(buf.lang == LanguageKind::Markdown);
    assert!(matches!(buf.autocomplete, Engine::Markdown(_)));
}

#[test]
fn save_writes_trimmed_lines_once() {
    let mut buf = Buffer::new("a.txt", lines(&["x  ", "", "y\t"]), false);
    let w = buf.save().expect("a changed file buffer is written");
    assert_eq!(w.path, "a.txt");
    assert_eq!(w.content, "x\n\ny\n");
    assert!(!buf.flag("changed"));
    assert_eq!(buf.alert.contents, lines(&["save"]));
    assert_eq!(buf.alert.timeout, 1_000_000);
    assert_eq!(buf.contents, lines(&["x  ", "", "y\t"]));
    assert!(buf.save().is_none());
    buf.type_char('z');
    assert!(buf.flag("changed"));
    assert_eq!(buf.save().map(|w| w.content), Some("zx\n\ny\n".to_string()));
}

#[test]
fn save_is_a_no_op_for_virtual_buffers() {
    for path in ["*scratch", "*direx"] {
        let mut buf = Buffer::new(path, lines(&["x"]), false);
        assert!(buf.save().is_none());
        assert!(buf.flag("changed"));
        assert!(buf.alert.contents.is_empty());
    }
}

#[test]
fn save_indexes_the_text_for_autocomplete() {
    let mut buf = Buffer::new("a.txt", lines(&["alpha beta"]), false);
    assert!(buf.autocomplete.get_candidates(&buf).0.is_empty());
    buf.save();
    assert_eq!(buf.autocomplete.get_candidates(&buf).0, lines(&["beta", "alpha"]));
}

#[test]
fn saved_text_reloads_to_the_trimmed_lines() {
    let mut buf = Buffer::new("a.txt", lines(&["fn a() {   ", "", "}  "]), false);
    let w = buf.save().expect("written");
    let again = Buffer::new("a.txt", split_lines_exec(&w.content), false);
    assert_eq!(again.contents, lines(&["fn a() {", "", "}"]));
}

#[test]
fn reload_replaces_the_text_and_keeps_the_cursor_inside() {
    let mut buf = Buffer::new("*scratch", lines(&["one", "two", "three"]), false);
    buf.cursor_pos.line = 2;
    buf.cursor_pos.idx = 5;
    let w = buf.reload_file(lines(&["ab"]));
    assert!(w.is_none());
    assert_eq!(buf.contents, lines(&["ab"]));
    assert_eq!((buf.cursor_pos.line, buf.cursor_pos.idx), (0, 2));
    assert!(buf.highlighted_contents == buf.lang.highlight(&buf.contents));
    buf.reload_file(Vec::new());
    assert_eq!(buf.contents, lines(&[""]));
    assert_eq!((buf.cursor_pos.line, buf.cursor_pos.idx), (0, 0));
}

#[test]
fn reload_of_a_changed_file_writes_it_back_trimmed() {
    let mut buf = Buffer::new("a.txt", lines(&["old"]), false);
    let w = buf.reload_file(lines(&["new  "])).expect("written");
    assert_eq!(w.path, "a.txt");
    assert_eq!(w.content, "new\n");
    assert!(buf.flag("changed"));
}

#[test]
fn reload_rebinds_the_plugins() {
    let mut buf = Buffer::new("a.txt", lines(&["x"]), false);
    buf.visit("b.rs");
    buf.reload_file(lines(&["fn main() {}"]));
    assert!(buf.lang == LanguageKind::Rust);
    buf.reload_file(lines(&["<!-- use-ext: .todo -->x.todo", "[ ] x"]));
    assert!(buf.lang == LanguageKind::Todo);
    assert!(buf.snippets == SnippetKind::Todo);
}

#[test]
fn resume_finishes_what_the_key_began() {
    let mut buf = Buffer::new("*scratch", lines(&["one", "two"]), false);
    buf.cursor_pos.line = 1;
    buf.mode = Mode::Default;
    let effect = handle_key(&mut buf, Key::Char('r'), &Mods::Ctrl, 24);
    assert!(matches!(effect, Effect::Reload(None, Resume::Restarted)));
    buf.resume(Resume::Restarted, lines(&["a", "b", "c"]));
    assert_eq!((buf.cursor_pos.line, buf.cursor_pos.idx), (0, 0));
    buf.cursor_pos.line = 2;
    let effect = handle_key(&mut buf, Key::Char('z'), &Mods::Ctrl, 24);
    assert!(matches!(effect, Effect::Reload(None, Resume::Reloaded)));
    buf.resume(Resume::Reloaded, lines(&["a", "b"]));
    assert_eq!(buf.cursor_pos.line, 1);
    buf.visit("x");
    buf.resume(Resume::Cycled, lines(&["q"]));
    assert_eq!(buf.alert.contents, lines(&["  *scratch", "> x"]));
    assert_eq!(buf.alert.timeout, 500_000);
    buf.mode = Mode::Find;
    buf.resume(Resume::Closed, lines(&["q"]));
    assert_eq!(buf.alert.timeout, 5_000_000);
    assert!(buf.mode == Mode::Default);
}

#[test]
fn history_moves() {
    let mut buf = Buffer::new("a", lines(&["x"]), false);
    buf.visit("b");
    buf.visit("c");
    assert_eq!(buf.buffer_history.display(), lines(&["  a", "  b", "> c"]));
    buf.switch_to(0);
    assert_eq!(buf.filepath, "a");
    assert_eq!(buf.buffer_history.display(), lines(&["> a", "  b", "  c"]));
    buf.leave();
    assert_eq!(buf.buffer_history.hist, lines(&["b", "c"]));
    assert_eq!(buf.buffer_history.head, 0);
    assert_eq!(buf.filepath, "b");
    buf.switch_to(1);
    buf.leave();
    assert_eq!(buf.buffer_history.hist, lines(&["b"]));
    assert_eq!(buf.filepath, "b");
}
