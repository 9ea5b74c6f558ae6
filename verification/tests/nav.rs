use bim::buffer::{BimVar, Buffer, Mode};
use bim::files::Effect;
use bim::input::handle_event;
use bim::keys::{Key, Mods};
use bim::languages::Language;
use bim::nav::{handle_nav, Motion, VIM_ITER_LIMIT};

fn lines(text: &[&str]) -> Vec<String> {
    text.iter().map(|s| s.to_string()).collect()
}

fn numbered(n: usize) -> Vec<String> {
    (0..n).map(|i| format!("line {i}")).collect()
}

fn nav_buffer(text: Vec<String>) -> Buffer {
    let buf = Buffer::new("*scratch", text, false);
    assert!(buf.mode == Mode::Nav);
    buf
}

fn press(buf: &mut Buffer, c: char) -> Effect {
    handle_nav(buf, Key::Char(c), &Mods::Plain, 10, 80)
}

fn cursor(buf: &Buffer) -> (usize, usize) {
    (buf.cursor_pos.line, buf.cursor_pos.idx)
}

#[test]
fn count_three_then_down_moves_three_lines() {
    let mut buf = nav_buffer(numbered(10));
    buf.temp_str = "3".to_string();
    press(&mut buf, 'a');
    assert_eq!(buf.cursor_pos.line, 3);
    assert_eq!(buf.temp_str, "");
}

#[test]
fn count_is_clamped_at_the_document_end() {
    let mut buf = nav_buffer(numbered(3));
    buf.temp_str = "3".to_string();
    press(&mut buf, 'a');
    assert_eq!(buf.cursor_pos.line, 2);
    assert_eq!(buf.temp_str, "");
}

#[test]
fn digits_accumulate_before_a_command() {
    let mut buf = nav_buffer(numbered(30));
    press(&mut buf, '1');
    press(&mut buf, '2');
    assert_eq!(buf.temp_str, "12");
    assert_eq!(buf.cursor_pos.line, 0);
    press(&mut buf, 'a');
    assert_eq!(buf.cursor_pos.line, 12);
    assert_eq!(buf.temp_str, "");
}

#[test]
fn a_command_without_count_runs_once() {
    let mut buf = nav_buffer(numbered(5));
    press(&mut buf, 'a');
    assert_eq!(buf.cursor_pos.line, 1);
    press(&mut buf, 'e');
    assert_eq!(buf.cursor_pos.line, 0);
    press(&mut buf, 'i');
    assert_eq!(cursor(&buf), (0, 1));
    press(&mut buf, 'c');
    assert_eq!(cursor(&buf), (0, 0));
}

#[test]
fn a_huge_count_stops_at_the_iteration_limit() {
    assert_eq!(VIM_ITER_LIMIT, 10000);
    let mut buf = nav_buffer(lines(&["x"]));
    buf.temp_str = "99999999999".to_string();
    press(&mut buf, 'y');
    assert_eq!(buf.contents.len(), VIM_ITER_LIMIT + 1);
    assert_eq!(buf.temp_str, "");
}

#[test]
fn a_count_too_large_for_the_machine_runs_nothing() {
    let mut buf = nav_buffer(numbered(5));
    buf.temp_str = "99999999999999999999999999999999".to_string();
    press(&mut buf, 'a');
    assert_eq!(buf.cursor_pos.line, 0);
    assert_eq!(buf.temp_str, "");
}

#[test]
fn zero_goes_home_only_without_a_count() {
    let mut buf = nav_buffer(lines(&["abcdef"]));
    buf.cursor_pos.idx = 4;
    press(&mut buf, '0');
    assert_eq!(cursor(&buf), (0, 0));
    assert_eq!(buf.temp_str, "");
    buf.cursor_pos.idx = 4;
    press(&mut buf, '1');
    press(&mut buf, '0');
    assert_eq!(buf.temp_str, "10");
    assert_eq!(cursor(&buf), (0, 4));
}

#[test]
fn f_then_a_character_jumps_behind_it() {
    let mut buf = nav_buffer(lines(&["hello world", "xyz"]));
    press(&mut buf, 'f');
    assert_eq!(buf.temp_str, "f");
    press(&mut buf, 'w');
    assert_eq!(cursor(&buf), (0, 7));
    assert_eq!(buf.temp_str, "");
    press(&mut buf, 'f');
    press(&mut buf, 'z');
    assert_eq!(cursor(&buf), (1, 3));
}

#[test]
fn escape_leaves_navigation_mode() {
    let mut buf = nav_buffer(lines(&["a"]));
    buf.temp_str = "12".to_string();
    handle_nav(&mut buf, Key::Esc, &Mods::Plain, 10, 80);
    assert!(buf.mode == Mode::Default);
    assert_eq!(buf.temp_str, "");
    assert!(!buf.flag("ret-to-nav"));
    assert!(matches!(buf.var("ret-to-nav"), Some(BimVar::Bool(false))));
}

#[test]
fn o_opens_lines_and_enters_text_mode() {
    let mut buf = nav_buffer(lines(&["a"]));
    buf.temp_str = "2".to_string();
    press(&mut buf, 'o');
    assert_eq!(buf.contents, lines(&["a", "", ""]));
    assert_eq!(buf.cursor_pos.line, 2);
    assert!(buf.mode == Mode::Default);
}

#[test]
fn k_kills_lines_under_a_count() {
    let mut buf = nav_buffer(numbered(5));
    buf.cursor_pos.line = 1;
    buf.temp_str = "2".to_string();
    press(&mut buf, 'k');
    assert_eq!(buf.contents, lines(&["line 0", "line 3", "line 4"]));
    assert_eq!(cursor(&buf), (1, 0));
    assert_eq!(buf.highlighted_contents.len(), 3);
}

#[test]
fn prompts_open_from_navigation_mode() {
    let mut buf = nav_buffer(lines(&["a"]));
    press(&mut buf, 'g');
    assert!(buf.mode == Mode::Goto);
    let mut buf = nav_buffer(lines(&["a"]));
    buf.find_str = "old".to_string();
    press(&mut buf, '/');
    assert!(buf.mode == Mode::Find);
    assert_eq!(buf.find_str, "");
    let mut buf = nav_buffer(lines(&["a"]));
    handle_nav(&mut buf, Key::Char('o'), &Mods::Alt, 10, 80);
    assert!(buf.mode == Mode::OpenFile);
}

#[test]
fn alt_q_asks_to_quit() {
    let mut buf = nav_buffer(lines(&["a"]));
    let effect = handle_nav(&mut buf, Key::Char('q'), &Mods::Alt, 10, 80);
    assert!(matches!(effect, Effect::Quit));
    let effect = handle_nav(&mut buf, Key::Char('a'), &Mods::Alt, 10, 80);
    assert!(matches!(effect, Effect::Nothing));
}

#[test]
fn control_keys_do_nothing_in_navigation_mode() {
    let mut buf = nav_buffer(lines(&["ab", "cd"]));
    let effect = handle_nav(&mut buf, Key::Char('a'), &Mods::Ctrl, 10, 80);
    assert!(matches!(effect, Effect::Nothing));
    handle_nav(&mut buf, Key::Char('a'), &Mods::CtrlAlt, 10, 80);
    assert_eq!(cursor(&buf), (0, 0));
    assert_eq!(buf.contents, lines(&["ab", "cd"]));
}

#[test]
fn scrolling_moves_window_and_cursor() {
    let mut buf = nav_buffer(numbered(5));
    handle_nav(&mut buf, Key::Char('a'), &Mods::Alt, 10, 80);
    assert_eq!(buf.top, 1);
    assert_eq!(buf.cursor_pos.line, 1);
    handle_nav(&mut buf, Key::Char('e'), &Mods::Alt, 10, 80);
    assert_eq!(buf.top, 0);
    assert_eq!(buf.cursor_pos.line, 0);
    handle_nav(&mut buf, Key::Char('e'), &Mods::Alt, 10, 80);
    assert_eq!(buf.top, 0);
}

#[test]
fn s_saves_a_file_buffer() {
    let mut buf = Buffer::new("notes.txt", lines(&["a  ", "b"]), false);
    match press(&mut buf, 's') {
        Effect::Write(w) => {
            assert_eq!(w.path, "notes.txt");
            assert_eq!(w.content, "a\nb\n");
        }
        _ => panic!("a write was expected"),
    }
    assert!(!buf.flag("changed"));
    assert!(matches!(press(&mut buf, 's'), Effect::Nothing));
}

#[test]
fn s_does_not_save_a_scratch_buffer() {
    let mut buf = nav_buffer(lines(&["a"]));
    assert!(matches!(press(&mut buf, 's'), Effect::Nothing));
    assert!(buf.flag("changed"));
}

#[test]
fn the_event_handler_uses_the_table_of_the_mode() {
    let mut buf = nav_buffer(lines(&["ab"]));
    handle_event(&mut buf, Key::Char('i'), &Mods::Plain, 10, 80);
    assert_eq!(buf.contents, lines(&["ab"]));
    assert_eq!(cursor(&buf), (0, 1));
    buf.mode = Mode::Default;
    handle_event(&mut buf, Key::Char('i'), &Mods::Plain, 10, 80);
    assert_eq!(buf.contents, lines(&["aib"]));
}

#[test]
fn motions_apply_on_their_own() {
    let mut buf = nav_buffer(numbered(4));
    buf.apply(Motion::Down, 10);
    buf.apply(Motion::DupLine, 10);
    assert_eq!(buf.contents, lines(&["line 0", "line 1", "line 1", "line 2", "line 3"]));
    assert_eq!(buf.cursor_pos.line, 2);
}

#[test]
fn the_grid_is_fresh_after_every_key() {
    let mut buf = Buffer::new("a.rs", lines(&["fn a() {", "    1 // x", "}"]), false);
    let keys = [
        (Key::Char('a'), Mods::Plain),
        (Key::Char('2'), Mods::Plain),
        (Key::Char('y'), Mods::Plain),
        (Key::Char('k'), Mods::Plain),
        (Key::Char('A'), Mods::Plain),
        (Key::Char('E'), Mods::Plain),
        (Key::Char('>'), Mods::Plain),
        (Key::Char('o'), Mods::Plain),
        (Key::Char('{'), Mods::Plain),
        (Key::Enter, Mods::Plain),
        (Key::Char('"'), Mods::Plain),
        (Key::Backspace, Mods::Plain),
        (Key::Tab, Mods::Plain),
        (Key::BackTab, Mods::Plain),
        (Key::Char('j'), Mods::Alt),
        (Key::Char('l'), Mods::Alt),
        (Key::Char('y'), Mods::Alt),
        (Key::Char('K'), Mods::Alt),
        (Key::Backspace, Mods::Ctrl),
        (Key::Delete, Mods::Plain),
        (Key::Char('N'), Mods::Alt),
        (Key::Char('K'), Mods::Plain),
    ];
    for (key, mods) in keys {
        handle_event(&mut buf, key, &mods, 10, 80);
        assert!(buf.highlighted_contents == buf.lang.highlight(&buf.contents));
        assert!(buf.flag("changed"));
        assert!(buf.cursor_pos.line < buf.contents.len());
        assert!(buf.cursor_pos.idx <= buf.contents[buf.cursor_pos.line].chars().count());
    }
}

#[test]
fn a_key_that_raises_no_message_keeps_the_message_and_its_moment() {
    let mut buf = Buffer::new("a.rs", lines(&["fn a() {", "    1", "}"]), false);
    buf.alert = bim::buffer::Alert::at(&lines(&["note"]), 42, 7);
    let keys = [
        (Key::Char('a'), Mods::Plain),
        (Key::Char('i'), Mods::Plain),
        (Key::Char('y'), Mods::Plain),
        (Key::Char('>'), Mods::Plain),
        (Key::Esc, Mods::Plain),
        (Key::Char('x'), Mods::Plain),
        (Key::Enter, Mods::Plain),
        (Key::Backspace, Mods::Plain),
        (Key::Char('j'), Mods::Alt),
        (Key::Char('G'), Mods::Alt),
        (Key::Char('2'), Mods::Plain),
        (Key::Enter, Mods::Plain),
    ];
    for (key, mods) in keys {
        handle_event(&mut buf, key, &mods, 10, 80);
        assert_eq!(buf.alert.contents, lines(&["note"]));
        assert_eq!(buf.alert.time, 42);
        assert_eq!(buf.alert.timeout, 7);
    }
    buf.mode = Mode::Goto;
    buf.temp_str = "x".to_string();
    handle_event(&mut buf, Key::Enter, &Mods::Plain, 10, 80);
    assert_eq!(buf.alert.contents, lines(&["Inval line num"]));
    assert_eq!(buf.alert.timeout, 1_000_000);
    assert!(buf.alert.time > 42);
}
