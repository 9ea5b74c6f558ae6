use bim::buffer::{Buffer, Mode};
use bim::languages::{Language, LanguageKind};

fn lines(text: &[&str]) -> Vec<String> {
    text.iter().map(|s| s.to_string()).collect()
}

fn buffer_at(path: &str, text: &[&str], line: usize, idx: usize) -> Buffer {
    let mut buf = Buffer::new(path, lines(text), false);
    buf.cursor_pos.line = line;
    buf.cursor_pos.idx = idx;
    buf.mode = Mode::Default;
    buf
}

fn buffer(text: &[&str], line: usize, idx: usize) -> Buffer {
    buffer_at("*scratch", text, line, idx)
}

fn cursor(buf: &Buffer) -> (usize, usize) {
    (buf.cursor_pos.line, buf.cursor_pos.idx)
}

fn invariant_holds(buf: &Buffer) -> bool {
    !buf.contents.is_empty()
        && buf.cursor_pos.line < buf.contents.len()
        && buf.cursor_pos.idx <= buf.contents[buf.cursor_pos.line].chars().count()
}

fn grid_is_fresh(buf: &Buffer) -> bool {
    buf.highlighted_contents == buf.lang.highlight(&buf.contents)
}

#[test]
fn type_char_inserts_and_advances() {
    let mut buf = buffer(&["ac"], 0, 1);
    buf.type_char('b');
    assert_eq!(buf.contents, lines(&["abc"]));
    assert_eq!(cursor(&buf), (0, 2));
    assert!(grid_is_fresh(&buf));
}

#[test]
fn type_char_in_tee_mode_is_captured() {
    let mut buf = buffer(&[""], 0, 0);
    buf.mode = Mode::Tee;
    buf.type_char('x');
    buf.type_char('y');
    assert_eq!(buf.replace_str, "xy");
    assert_eq!(buf.contents[0], "xy");
    buf.backspace();
    assert_eq!(buf.replace_str, "x");
    assert_eq!(buf.contents[0], "x");
}

#[test]
fn backspace_deletes_left_of_the_cursor() {
    let mut buf = buffer(&["abc"], 0, 2);
    assert_eq!(buf.backspace(), Some('b'));
    assert_eq!(buf.contents, lines(&["ac"]));
    assert_eq!(cursor(&buf), (0, 1));
    assert!(grid_is_fresh(&buf));
}

#[test]
fn backspace_at_line_start_joins_the_lines() {
    let mut buf = buffer(&["ab", "cd", "ef"], 1, 0);
    assert_eq!(buf.backspace(), Some('\n'));
    assert_eq!(buf.contents, lines(&["abcd", "ef"]));
    assert_eq!(cursor(&buf), (0, 2));
}

#[test]
fn backspace_at_document_start_removes_the_first_character() {
    let mut buf = buffer(&["abc"], 0, 0);
    assert_eq!(buf.backspace(), Some('a'));
    assert_eq!(buf.contents, lines(&["bc"]));
    assert_eq!(cursor(&buf), (0, 0));
}

#[test]
fn backspace_in_an_empty_buffer_does_nothing() {
    let mut buf = buffer(&[""], 0, 0);
    assert_eq!(buf.backspace(), None);
    assert_eq!(buf.contents, lines(&[""]));
    assert_eq!(cursor(&buf), (0, 0));
}

#[test]
fn fast_backspace_leaves_the_grid_stale_until_updated() {
    let mut buf = buffer(&["abc"], 0, 3);
    assert_eq!(buf.fast_backspace(), Some('c'));
    assert_eq!(buf.fast_backspace(), Some('b'));
    assert_eq!(buf.contents, lines(&["a"]));
    assert!(!grid_is_fresh(&buf));
    buf.update_highlighting();
    assert!(grid_is_fresh(&buf));
}

#[test]
fn newline_below_indents_to_the_depth() {
    let mut buf = buffer_at("x.rs", &["fn f() {"], 0, 8);
    buf.indent_lvl = 2;
    buf.newline_below("body");
    assert_eq!(buf.contents, lines(&["fn f() {", "        body"]));
    assert_eq!(cursor(&buf), (1, 8));
}

#[test]
fn newline_below_uses_the_indent_size_of_the_language() {
    let mut buf = buffer_at("notes.txt", &["a"], 0, 1);
    buf.indent_lvl = 3;
    buf.newline_below("");
    assert_eq!(buf.contents, lines(&["a", "      "]));
    assert_eq!(cursor(&buf), (1, 6));
}

#[test]
fn adjust_indent_rewrites_leading_and_trailing_whitespace() {
    let mut buf = buffer_at("x.rs", &["\t  let x = 1;   "], 0, 3);
    buf.indent_lvl = 1;
    buf.adjust_indent();
    assert_eq!(buf.contents, lines(&["    let x = 1;"]));
    assert!(invariant_holds(&buf));
}

#[test]
fn adjust_indent_keeps_the_cursor_on_the_line() {
    let mut buf = buffer_at("x.rs", &["        x"], 0, 9);
    buf.indent_lvl = 0;
    buf.adjust_indent();
    assert_eq!(buf.contents, lines(&["x"]));
    assert_eq!(cursor(&buf), (0, 1));
}

#[test]
fn indent_depth_changes_only_by_explicit_commands() {
    let mut buf = buffer(&["ab", "cd"], 0, 0);
    buf.indent_lvl = 2;
    buf.type_char('x');
    buf.backspace();
    buf.move_down();
    buf.newline_below("");
    buf.adjust_indent();
    assert_eq!(buf.indent_lvl, 2);
    buf.inc_indent();
    assert_eq!(buf.indent_lvl, 3);
    buf.dec_indent();
    buf.dec_indent();
    buf.dec_indent();
    buf.dec_indent();
    assert_eq!(buf.indent_lvl, 0);
}

#[test]
fn invariant_holds_after_every_primitive() {
    let mut buf = buffer(&["ab", "", "cde"], 2, 3);
    let steps: Vec<fn(&mut Buffer)> = vec![
        |b| {
            b.move_left();
        },
        |b| {
            b.move_up();
        },
        |b| {
            b.backspace();
        },
        |b| {
            b.backspace();
        },
        |b| b.type_char('z'),
        |b| b.newline_below("q"),
        |b| {
            b.move_down();
        },
        |b| {
            b.fast_backspace();
        },
        |b| b.adjust_indent(),
        |b| {
            b.move_right();
        },
        |b| b.kill_line(),
        |b| b.kill_line(),
        |b| b.kill_line(),
        |b| b.kill_line(),
        |b| {
            b.backspace();
        },
    ];
    for step in steps {
        step(&mut buf);
        assert!(invariant_holds(&buf));
    }
}

#[test]
fn kill_line_empties_the_only_line() {
    let mut buf = buffer(&["abc"], 0, 2);
    buf.kill_line();
    assert_eq!(buf.contents, lines(&[""]));
    assert_eq!(cursor(&buf), (0, 0));
}

#[test]
fn kill_line_on_the_last_line_moves_the_cursor_up() {
    let mut buf = buffer(&["a", "b"], 1, 1);
    buf.kill_line();
    assert_eq!(buf.contents, lines(&["a"]));
    assert_eq!(cursor(&buf), (0, 0));
}

#[test]
fn dup_line_copies_the_line_of_the_cursor() {
    let mut buf = buffer(&["a", "b"], 0, 1);
    buf.dup_line();
    assert_eq!(buf.contents, lines(&["a", "a", "b"]));
    assert_eq!(cursor(&buf), (1, 1));
}

#[test]
fn swap_down_and_up_exchange_lines() {
    let mut buf = buffer(&["one", "x", "three"], 0, 3);
    buf.swap_down();
    assert_eq!(buf.contents, lines(&["x", "one", "three"]));
    assert_eq!(cursor(&buf), (1, 1));
    buf.swap_up();
    assert_eq!(buf.contents, lines(&["one", "x", "three"]));
    assert_eq!(buf.cursor_pos.line, 0);
    assert!(invariant_holds(&buf));
}

#[test]
fn swap_down_on_the_last_line_does_nothing() {
    let mut buf = buffer(&["a", "b"], 1, 0);
    buf.swap_down();
    assert_eq!(buf.contents, lines(&["a", "b"]));
    assert_eq!(cursor(&buf), (1, 0));
}

#[test]
fn open_above_on_the_first_line() {
    let mut buf = buffer(&["a"], 0, 1);
    buf.indent_lvl = 1;
    buf.open_above();
    assert_eq!(buf.contents, lines(&["", "a"]));
    assert_eq!(cursor(&buf), (0, 0));
}

#[test]
fn open_above_below_the_first_line_is_indented() {
    let mut buf = buffer(&["a", "b"], 1, 1);
    buf.indent_lvl = 1;
    buf.open_above();
    assert_eq!(buf.contents, lines(&["a", "  ", "b"]));
    assert_eq!(cursor(&buf), (1, 2));
}

#[test]
fn replace_found_swaps_the_text_before_the_cursor() {
    let mut buf = buffer(&["say hello now"], 0, 9);
    buf.find_str = "hello".to_string();
    buf.replace_str = "bye".to_string();
    buf.replace_found();
    assert_eq!(buf.contents, lines(&["say bye now"]));
    assert!(invariant_holds(&buf));
}

#[test]
fn join_lines_trims_and_puts_one_space() {
    let mut buf = buffer(&["let x =   ", "    1;  ", "z"], 0, 2);
    buf.join_lines();
    assert_eq!(buf.contents, lines(&["let x = 1;", "z"]));
}

#[test]
fn join_lines_keeps_the_cursor_on_the_line() {
    let mut buf = buffer(&["a        ", ""], 0, 9);
    buf.join_lines();
    assert_eq!(buf.contents, lines(&["a "]));
    assert_eq!(cursor(&buf), (0, 2));
}

#[test]
fn tab_and_back_tab() {
    let mut buf = buffer_at("x.rs", &["ab"], 0, 1);
    buf.tab();
    assert_eq!(buf.contents, lines(&["a    b"]));
    assert_eq!(cursor(&buf), (0, 5));
    assert_eq!(buf.indent_lvl, 1);
    buf.back_tab();
    assert_eq!(buf.contents, lines(&["ab"]));
    assert_eq!(cursor(&buf), (0, 1));
    assert_eq!(buf.indent_lvl, 0);
    buf.back_tab();
    assert_eq!(buf.contents, lines(&["ab"]));
}

#[test]
fn kill_to_end_and_to_indent() {
    let mut buf = buffer_at("x.rs", &["    let x = 1;"], 0, 8);
    buf.indent_lvl = 1;
    buf.kill_to_indent();
    assert_eq!(buf.contents, lines(&["    x = 1;"]));
    assert_eq!(cursor(&buf), (0, 4));
    buf.cursor_pos.idx = 5;
    buf.kill_to_end();
    assert_eq!(buf.contents, lines(&["    x"]));
}

#[test]
fn kill_to_indent_before_the_indent_does_nothing() {
    let mut buf = buffer_at("x.rs", &["    let"], 0, 2);
    buf.indent_lvl = 1;
    buf.kill_to_indent();
    assert_eq!(buf.contents, lines(&["    let"]));
    assert_eq!(cursor(&buf), (0, 2));
}

#[test]
fn adopt_indent_reads_the_depth_off_the_line() {
    let mut buf = buffer_at("x.rs", &["        deep"], 0, 0);
    buf.adopt_indent();
    assert_eq!(buf.indent_lvl, 2);
    assert_eq!(cursor(&buf), (0, 8));
    let mut buf = buffer_at("x.rs", &["      odd"], 0, 0);
    buf.measure_indent();
    assert_eq!(buf.indent_lvl, 1);
    assert_eq!(cursor(&buf), (0, 0));
}

#[test]
fn indent_and_dedent_shift_the_line() {
    let mut buf = buffer_at("x.rs", &["x"], 0, 1);
    buf.indent();
    assert_eq!(buf.contents, lines(&["    x"]));
    assert_eq!(cursor(&buf), (0, 5));
    assert_eq!(buf.indent_lvl, 1);
    buf.dedent();
    assert_eq!(buf.contents, lines(&["x"]));
    assert_eq!(cursor(&buf), (0, 1));
    assert_eq!(buf.indent_lvl, 0);
    buf.dedent();
    assert_eq!(buf.contents, lines(&["x"]));
    assert_eq!(buf.indent_lvl, 0);
}

#[test]
fn kill_word_erases_back_over_one_word() {
    let mut buf = buffer(&["one two"], 0, 7);
    buf.kill_word();
    assert_eq!(buf.contents, lines(&["one "]));
    assert_eq!(cursor(&buf), (0, 4));
}

#[test]
fn language_of_the_buffer_follows_the_path() {
    let buf = buffer_at("main.rs", &["x"], 0, 0);
    assert!(buf.lang == LanguageKind::Rust);
    assert_eq!(buf.lang.indent_size(), 4);
    let buf = buffer_at("notes", &["x"], 0, 0);
    assert!(buf.lang == LanguageKind::Text);
    assert_eq!(buf.lang.indent_size(), 2);
}

#[test]
fn recomputation_does_not_wait_for_the_changed_entry() {
    let mut buf = buffer(&["ab"], 0, 1);
    buf.vars.remove("changed");
    assert!(buf.var("changed").is_none());
    buf.type_char('x');
    assert_eq!(buf.contents, lines(&["axb"]));
    assert!(grid_is_fresh(&buf));
    assert!(buf.flag("changed"));
    buf.vars.remove("changed");
    buf.cursor_pos.line = 0;
    buf.cursor_pos.idx = 0;
    buf.newline_below("y");
    assert!(grid_is_fresh(&buf));
    buf.backspace();
    buf.backspace();
    assert!(grid_is_fresh(&buf));
    assert!(buf.flag("changed"));
}
