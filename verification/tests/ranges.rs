use bim::buffer::{Buffer, Mode};
use bim::input::handle_event;
use bim::keys::{Key, Mods};

fn lines(text: &[&str]) -> Vec<String> {
    text.iter().map(|s| s.to_string()).collect()
}

fn buffer(text: &[&str], mode: Mode, temp: &str) -> Buffer {
    let mut buf = Buffer::new("*scratch", lines(text), false);
    buf.mode = mode;
    buf.temp_str = temp.to_string();
    buf
}

fn enter(buf: &mut Buffer) {
    handle_event(buf, Key::Enter, &Mods::Plain, 24, 80);
}

#[test]
fn decode_accepts_an_inclusive_one_based_range() {
    let buf = buffer(&["a", "b", "c"], Mode::Copy, "1 3");
    assert_eq!(buf.decode_from_to(), Ok((1, 3)));
    let buf = buffer(&["a", "b", "c"], Mode::Copy, "  2\t2 ");
    assert_eq!(buf.decode_from_to(), Ok((2, 2)));
}

#[test]
fn decode_rejects_from_greater_than_to() {
    let buf = buffer(&["a", "b", "c"], Mode::Copy, "3 1");
    assert_eq!(buf.decode_from_to(), Err("assert: f <= t".to_string()));
}

#[test]
fn decode_rejects_zero() {
    let buf = buffer(&["a", "b", "c"], Mode::Copy, "0 2");
    assert_eq!(buf.decode_from_to(), Err("assert: f <= t".to_string()));
}

#[test]
fn decode_rejects_what_is_no_number() {
    let buf = buffer(&["a", "b", "c"], Mode::Copy, "a b");
    assert_eq!(buf.decode_from_to(), Err("Inval from".to_string()));
    let buf = buffer(&["a", "b", "c"], Mode::Copy, "1 b");
    assert_eq!(buf.decode_from_to(), Err("Inval to".to_string()));
    let buf = buffer(&["a", "b", "c"], Mode::Copy, "-1 2");
    assert_eq!(buf.decode_from_to(), Err("Inval from".to_string()));
}

#[test]
fn decode_rejects_lines_beyond_the_text() {
    let buf = buffer(&["a", "b", "c"], Mode::Copy, "4 4");
    assert_eq!(buf.decode_from_to(), Err("Inval from".to_string()));
    let buf = buffer(&["a", "b", "c"], Mode::Copy, "1 4");
    assert_eq!(buf.decode_from_to(), Err("Inval to".to_string()));
}

#[test]
fn decode_rejects_the_wrong_number_of_arguments() {
    let buf = buffer(&["a", "b", "c"], Mode::Copy, "1");
    assert_eq!(buf.decode_from_to(), Err("1 args given, 2 expected".to_string()));
    let buf = buffer(&["a", "b", "c"], Mode::Copy, "");
    assert_eq!(buf.decode_from_to(), Err("0 args given, 2 expected".to_string()));
    let buf = buffer(&["a", "b", "c"], Mode::Copy, "1 2 3");
    assert_eq!(buf.decode_from_to(), Err("3 args given, 2 expected".to_string()));
}

#[test]
fn failed_range_commands_leave_the_text_unchanged() {
    for mode in [Mode::Copy, Mode::KillLines] {
        for temp in ["3 1", "a b", "1", "0 1", "1 9"] {
            let mut buf = buffer(&["a", "b", "c"], mode, temp);
            let expected = buf.decode_from_to().unwrap_err();
            enter(&mut buf);
            assert_eq!(buf.contents, lines(&["a", "b", "c"]));
            assert_eq!(buf.alert.contents, vec![expected]);
            assert_eq!(buf.alert.timeout, 1_000_000);
            assert!(buf.mode == Mode::Default);
            assert_eq!(buf.temp_str, "");
        }
    }
}

#[test]
fn failed_shift_leaves_the_text_unchanged() {
    for key in ['<', '>'] {
        let mut buf = buffer(&["  a", "  b"], Mode::Indent, "2 1");
        handle_event(&mut buf, Key::Char(key), &Mods::Alt, 24, 80);
        assert_eq!(buf.contents, lines(&["  a", "  b"]));
        assert_eq!(buf.alert.contents, vec!["assert: f <= t".to_string()]);
    }
}

#[test]
fn copy_puts_the_range_above_the_cursor() {
    let mut buf = buffer(&["a", "b", "c"], Mode::Copy, "1 2");
    buf.cursor_pos.line = 2;
    enter(&mut buf);
    assert_eq!(buf.contents, lines(&["a", "b", "a", "b", "c"]));
    assert_eq!(buf.cursor_pos.line, 2);
    assert!(buf.mode == Mode::Default);
}

#[test]
fn kill_removes_the_range() {
    let mut buf = buffer(&["a", "b", "c", "d"], Mode::KillLines, "2 3");
    buf.cursor_pos.line = 3;
    enter(&mut buf);
    assert_eq!(buf.contents, lines(&["a", "d"]));
    assert_eq!(buf.cursor_pos.line, 1);
}

#[test]
fn kill_of_every_line_leaves_one_line() {
    let mut buf = buffer(&["a", "b"], Mode::KillLines, "1 2");
    buf.cursor_pos.line = 1;
    buf.cursor_pos.idx = 1;
    enter(&mut buf);
    assert_eq!(buf.contents, lines(&[""]));
    assert_eq!((buf.cursor_pos.line, buf.cursor_pos.idx), (0, 0));
}

#[test]
fn shift_right_and_left_over_a_range() {
    let mut buf = buffer(&["a", "b", "c"], Mode::Indent, "2 3");
    handle_event(&mut buf, Key::Char('>'), &Mods::Alt, 24, 80);
    assert_eq!(buf.contents, lines(&["a", "  b", "  c"]));
    buf.temp_str = "1 2".to_string();
    handle_event(&mut buf, Key::Char('<'), &Mods::Alt, 24, 80);
    assert_eq!(buf.contents, lines(&["a", "b", "  c"]));
    assert!(buf.mode == Mode::Indent);
    enter(&mut buf);
    assert!(buf.mode == Mode::Default);
    assert_eq!(buf.temp_str, "");
}

#[test]
fn range_prompt_starts_with_the_line_of_the_cursor() {
    let mut buf = buffer(&["a", "b", "c"], Mode::Default, "junk");
    buf.cursor_pos.line = 1;
    handle_event(&mut buf, Key::Char('Y'), &Mods::Alt, 24, 80);
    assert!(buf.mode == Mode::Copy);
    assert_eq!(buf.temp_str, "2 ");
    buf.cursor_pos.line = 2;
    handle_event(&mut buf, Key::Char('Y'), &Mods::Alt, 24, 80);
    assert_eq!(buf.temp_str, "2 3 ");
    enter(&mut buf);
    assert_eq!(buf.contents, lines(&["a", "b", "b", "c", "c"]));
}

#[test]
fn goto_jumps_to_a_line_counted_from_one() {
    let mut buf = buffer(&["abc", "d", "e"], Mode::Goto, "2");
    buf.cursor_pos.idx = 3;
    enter(&mut buf);
    assert_eq!((buf.cursor_pos.line, buf.cursor_pos.idx), (1, 1));
    assert!(buf.mode == Mode::Default);
    assert_eq!(buf.temp_str, "");
}

#[test]
fn goto_reports_what_is_no_number() {
    let mut buf = buffer(&["abc", "d", "e"], Mode::Goto, "x");
    enter(&mut buf);
    assert_eq!(buf.cursor_pos.line, 0);
    assert_eq!(buf.alert.contents, vec!["Inval line num".to_string()]);
}

#[test]
fn goto_beyond_the_text_stays() {
    let mut buf = buffer(&["abc", "d", "e"], Mode::Goto, "3");
    enter(&mut buf);
    assert_eq!(buf.cursor_pos.line, 0);
    assert!(buf.alert.contents.is_empty());
}
