use bim::buffer::{style_time, BimVar, Buffer, Mode};
use bim::languages::StyledChar;
use bim::render::{push_alert_line, push_blank_rows, push_glyph, push_padded, push_row};

fn lines(text: &[&str]) -> Vec<String> {
    text.iter().map(|s| s.to_string()).collect()
}

const RESET: &str = "\x1b[0m";

#[test]
fn padding_counts_characters() {
    let mut out = String::from("<");
    push_padded(&mut out, "ab", 5, true);
    assert_eq!(out, "<   ab");
    push_padded(&mut out, "é", 3, false);
    assert_eq!(out, "<   abé  ");
    push_padded(&mut out, "long", 2, true);
    push_padded(&mut out, "long", 2, false);
    assert_eq!(out, "<   abé  longlong");
    let mut out = String::new();
    push_padded(&mut out, "12", 4, true);
    assert_eq!(out, format!("{: >4}", 12));
}

#[test]
fn glyphs_and_rows() {
    let mut out = String::new();
    push_glyph(&mut out, &StyledChar::styled("\x1b[2m", 'x'));
    assert_eq!(out, "\x1b[2mx\x1b[0m");
    let row = StyledChar::colour_string("ab", "\x1b[32m");
    let mut out = String::new();
    push_row(&mut out, &row, 4);
    assert_eq!(out, "\x1b[32ma\x1b[0m\x1b[32mb\x1b[0m  ");
    let mut out = String::new();
    push_row(&mut out, &row, 1);
    assert_eq!(out, "\x1b[32ma\x1b[0m");
    let mut out = String::new();
    push_blank_rows(&mut out, 3, false, 2);
    assert_eq!(out, "      ");
    let mut out = String::new();
    push_blank_rows(&mut out, 2, true, 2);
    assert_eq!(out, "  \n  \n");
}

#[test]
fn alert_lines_are_clipped_and_filled() {
    let mut out = String::new();
    push_alert_line(&mut out, "hello", 3, false);
    assert_eq!(out, "\x1b[47m\x1b[30mhel\x1b[0m");
    let mut out = String::new();
    push_alert_line(&mut out, "hi", 4, true);
    assert_eq!(out, "\x1b[47m\x1b[30mhi  \x1b[0m\n");
}

#[test]
fn status_bar_of_a_new_buffer() {
    let mut buf = Buffer::new("a.rs", lines(&["x"]), false);
    buf.iter_time = 9_999;
    let bar = buf.bar_text("Enter", 200);
    assert_eq!(
        bar,
        format!("[a.rs [*]] [Rust; Text; Text] ({: <12} fps) Enter", style_time(9_999))
    );
    buf.set_var("changed", BimVar::Bool(false));
    buf.find_str = "a\"b".to_string();
    buf.replace_str = "c\n".to_string();
    let bar = buf.bar_text("", 200);
    assert_eq!(
        bar,
        format!(
            "[a.rs] (?: {:?}) (-> {:?}) [Rust; Text; Text] ({: <12} fps) ",
            "a\"b",
            "c\n",
            style_time(9_999)
        )
    );
    assert!(bar.contains("(?: \"a\\\"b\") "));
    assert_eq!(buf.bar_text("Enter", 5), "[a.rs] (?:");
    let md = Buffer::new("n.md", lines(&["x"]), false);
    assert!(md.bar_text("", 200).contains("[Markdown; Text; Markdown]"));
}

#[test]
fn frame_of_a_small_buffer() {
    let mut buf = Buffer::new("*scratch", lines(&["ab", "c"]), false);
    buf.mode = Mode::Default;
    buf.cursor_pos.idx = 1;
    buf.set_var("showbottombar", BimVar::Bool(false));
    let frame = buf.frame("", 8, 3, false, false);
    let cursor_row = format!("\x1b[36m1  {RESET}\x1b[33ma{RESET}\x1b[47m\x1b[30mb{RESET}   \n");
    let other_row = format!("\x1b[2m\x1b[36m1  {RESET}c{RESET}    ");
    let blank_row = " ".repeat(8);
    let mut expected = format!("{cursor_row}{other_row}{blank_row}");
    expected.pop();
    assert_eq!(frame, expected);
}

#[test]
fn frame_with_alert_and_status_bar() {
    let mut buf = Buffer::new("*scratch", lines(&["ab"]), false);
    buf.set_var("line-num-type", BimVar::Str("none".to_string()));
    buf.cursor_pos.idx = 2;
    buf.indent_lvl = 2;
    buf.iter_time = 0;
    buf.temp_str = "7".to_string();
    buf.raise(&lines(&["note"]), 1_000);
    let frame = buf.frame("x", 6, 5, false, false);
    let cursor_row =
        format!("a{RESET}b{RESET}\x1b[46m\x1b[30m {RESET} \x1b[2;33m|{RESET} \n");
    let blank = " ".repeat(6);
    let alert = format!("\x1b[47m\x1b[30mnote  {RESET}");
    let bar: String = format!(
        "[*scratch [*]] [Text; Text; Text] ({: <12} fps) x",
        style_time(0)
    )
    .chars()
    .take(11)
    .collect();
    let expected = format!("{cursor_row}{blank}{alert}{bar}{RESET} | {: <6}", "nav :: 7");
    assert_eq!(frame, expected);
    let windows = buf.frame("x", 6, 5, false, true);
    let expected = format!(
        "{cursor_row}{blank}\n{alert}\n{bar: <6}{RESET}\n{: <6}",
        "nav :: 7"
    );
    assert_eq!(windows, expected);
}

#[test]
fn frame_marks_indent_guide_and_ruler() {
    let mut buf = Buffer::new("a.rs", lines(&["        x"]), false);
    buf.set_var("line-num-type", BimVar::Str("none".to_string()));
    buf.set_var("showbottombar", BimVar::Bool(false));
    buf.indent_lvl = 1;
    buf.cursor_pos.idx = 0;
    let frame = buf.frame("", 82, 1, false, false);
    assert!(frame.starts_with("\x1b[46m\x1b[30m \x1b[0m"));
    assert!(frame.contains(" \x1b[0m \x1b[0m \x1b[0m\x1b[2;33m|\x1b[0m \x1b[0m"));
    assert!(frame.ends_with("\x1b[2;31m|\x1b[0m "));
}
