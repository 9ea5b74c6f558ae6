use bim::buffer::Buffer;

fn lines(text: &[&str]) -> Vec<String> {
    text.iter().map(|s| s.to_string()).collect()
}

fn buffer(text: &[&str], line: usize, idx: usize) -> Buffer {
    let mut buf = Buffer::new("*scratch", lines(text), false);
    buf.cursor_pos.line = line;
    buf.cursor_pos.idx = idx;
    buf
}

fn cursor(buf: &Buffer) -> (usize, usize) {
    (buf.cursor_pos.line, buf.cursor_pos.idx)
}

#[test]
fn move_left_wraps_to_the_end_of_the_line_above() {
    let mut buf = buffer(&["ab", "cd"], 1, 0);
    assert!(buf.move_left());
    assert_eq!(cursor(&buf), (0, 2));
}

#[test]
fn move_left_at_document_start_does_not_move() {
    let mut buf = buffer(&["ab", "cd"], 0, 0);
    assert!(!buf.move_left());
    assert_eq!(cursor(&buf), (0, 0));
}

#[test]
fn move_left_inside_a_line_steps_one_column() {
    let mut buf = buffer(&["abc"], 0, 2);
    assert!(buf.move_left());
    assert_eq!(cursor(&buf), (0, 1));
}

#[test]
fn move_right_wraps_to_the_start_of_the_line_below() {
    let mut buf = buffer(&["ab", "cd"], 0, 2);
    assert!(buf.move_right());
    assert_eq!(cursor(&buf), (1, 0));
}

#[test]
fn move_right_on_an_empty_line_goes_to_the_next_line() {
    let mut buf = buffer(&["", "cd"], 0, 0);
    assert!(buf.move_right());
    assert_eq!(cursor(&buf), (1, 0));
}

#[test]
fn move_right_at_document_end_does_not_move() {
    let mut buf = buffer(&["ab", "cd"], 1, 2);
    assert!(!buf.move_right());
    assert_eq!(cursor(&buf), (1, 2));
}

#[test]
fn move_up_clamps_the_column_to_a_shorter_line() {
    let mut buf = buffer(&["ab", "cdefg"], 1, 4);
    assert!(buf.move_up());
    assert_eq!(cursor(&buf), (0, 2));
}

#[test]
fn move_up_on_the_first_line_keeps_the_column() {
    let mut buf = buffer(&["abcd"], 0, 3);
    assert!(!buf.move_up());
    assert_eq!(cursor(&buf), (0, 3));
}

#[test]
fn move_down_clamps_the_column_to_a_shorter_line() {
    let mut buf = buffer(&["abcdef", "xy"], 0, 5);
    assert!(buf.move_down());
    assert_eq!(cursor(&buf), (1, 2));
}

#[test]
fn move_down_on_the_last_line_keeps_the_column() {
    let mut buf = buffer(&["abcdef", "xy"], 1, 1);
    assert!(!buf.move_down());
    assert_eq!(cursor(&buf), (1, 1));
}

#[test]
fn left_then_right_returns_to_every_position_but_the_start() {
    let text = ["ab", "", "cde"];
    for (line, row) in text.iter().enumerate() {
        for idx in 0..=row.len() {
            if line == 0 && idx == 0 {
                continue;
            }
            let mut buf = buffer(&text, line, idx);
            assert!(buf.move_left());
            assert!(buf.move_right());
            assert_eq!(cursor(&buf), (line, idx));
        }
    }
}

#[test]
fn right_then_left_returns_to_every_position_but_the_end() {
    let text = ["ab", "", "cde"];
    for (line, row) in text.iter().enumerate() {
        for idx in 0..=row.len() {
            if line == 2 && idx == 3 {
                continue;
            }
            let mut buf = buffer(&text, line, idx);
            assert!(buf.move_right());
            assert!(buf.move_left());
            assert_eq!(cursor(&buf), (line, idx));
        }
    }
}

#[test]
fn moves_never_change_the_text() {
    let mut buf = buffer(&["ab", "cd"], 0, 1);
    buf.move_left();
    buf.move_down();
    buf.move_right();
    buf.move_up();
    assert_eq!(buf.contents, lines(&["ab", "cd"]));
}

#[test]
fn columns_count_characters_not_bytes() {
    let mut buf = buffer(&["é", "αβγ"], 1, 3);
    assert!(buf.move_up());
    assert_eq!(cursor(&buf), (0, 1));
    buf.type_char('x');
    assert_eq!(buf.contents[0], "éx");
}

#[test]
fn word_forward_stops_behind_the_next_word() {
    let mut buf = buffer(&["one two  three"], 0, 0);
    buf.word_forward();
    assert_eq!(cursor(&buf), (0, 4));
    buf.word_forward();
    assert_eq!(cursor(&buf), (0, 8));
}

#[test]
fn word_forward_stays_at_the_end_of_a_line() {
    let mut buf = buffer(&["ab", "cd"], 0, 0);
    buf.word_forward();
    assert_eq!(cursor(&buf), (0, 2));
}

#[test]
fn word_back_stops_before_the_word() {
    let mut buf = buffer(&["one two"], 0, 6);
    buf.word_back();
    assert_eq!(cursor(&buf), (0, 3));
}

#[test]
fn find_next_lands_behind_the_match() {
    let mut buf = buffer(&["abc abc", "xx abc"], 0, 0);
    buf.find_str = "abc".to_string();
    buf.find_next();
    assert_eq!(cursor(&buf), (0, 7));
    buf.find_next();
    assert_eq!(cursor(&buf), (1, 6));
}

#[test]
fn find_next_without_a_match_ends_on_the_last_line() {
    let mut buf = buffer(&["abc", "def", "ghi"], 0, 0);
    buf.find_str = "zzz".to_string();
    buf.find_next();
    assert_eq!(cursor(&buf), (2, 0));
}

#[test]
fn find_prev_lands_behind_the_match_above() {
    let mut buf = buffer(&["abc x", "yy"], 1, 2);
    buf.find_str = "abc".to_string();
    buf.find_prev();
    assert_eq!(cursor(&buf), (0, 3));
}

#[test]
fn find_prev_without_a_match_ends_on_the_first_line() {
    let mut buf = buffer(&["abc", "def"], 1, 2);
    buf.find_str = "zzz".to_string();
    buf.find_prev();
    assert_eq!(cursor(&buf), (0, 3));
}

#[test]
fn paragraph_moves_stop_at_empty_lines() {
    let mut buf = buffer(&["a", "", "b", "c", "", "d"], 3, 1);
    buf.paragraph_up();
    assert_eq!(cursor(&buf), (1, 0));
    let mut buf = buffer(&["a", "", "b", "c", "", "d"], 2, 1);
    buf.paragraph_down();
    assert_eq!(cursor(&buf), (5, 1));
}

#[test]
fn page_moves_clamp_at_the_ends() {
    let mut buf = buffer(&["a", "b", "c", "d", "e"], 1, 0);
    buf.page_down(3);
    assert_eq!(cursor(&buf), (4, 0));
    buf.page_up(3);
    assert_eq!(cursor(&buf), (1, 0));
    buf.page_up(3);
    assert_eq!(cursor(&buf), (0, 0));
    buf.page_down(100);
    assert_eq!(cursor(&buf), (4, 0));
}

#[test]
fn goto_bottom_and_top() {
    let mut buf = buffer(&["ab", "cd", "ef"], 1, 1);
    buf.goto_bottom();
    assert_eq!(cursor(&buf), (2, 0));
    buf.goto_top();
    assert_eq!(cursor(&buf), (0, 0));
    buf.end();
    assert_eq!(cursor(&buf), (0, 2));
}
