use bim::buffer::{Buffer, Mode};
use bim::files::Effect;
use bim::keys::{Key, Mods};
use bim::terminal::{
    describe, handle_press, handle_terminal_event, key_press, press_of, pretty_str_event,
};
use bim::viewport::EventText;
use crossterm::event::{Event, KeyCode, KeyEvent, KeyEventKind, KeyModifiers};

fn lines(text: &[&str]) -> Vec<String> {
    text.iter().map(|s| s.to_string()).collect()
}

fn press(code: KeyCode, modifiers: KeyModifiers) -> Event {
    Event::Key(KeyEvent::new(code, modifiers))
}

#[test]
fn key_codes_become_keys() {
    let cases = [
        (KeyCode::Esc, Key::Esc),
        (KeyCode::Backspace, Key::Backspace),
        (KeyCode::Delete, Key::Delete),
        (KeyCode::Enter, Key::Enter),
        (KeyCode::BackTab, Key::BackTab),
        (KeyCode::Tab, Key::Tab),
        (KeyCode::Left, Key::Left),
        (KeyCode::Right, Key::Right),
        (KeyCode::Up, Key::Up),
        (KeyCode::Down, Key::Down),
        (KeyCode::Home, Key::Home),
        (KeyCode::End, Key::End),
        (KeyCode::Char('x'), Key::Char('x')),
        (KeyCode::Char('É'), Key::Char('É')),
        (KeyCode::PageUp, Key::Other),
        (KeyCode::F(1), Key::Other),
        (KeyCode::Insert, Key::Other),
        (KeyCode::Null, Key::Other),
    ];
    for (code, key) in cases {
        let (k, m) = key_press(&press(code, KeyModifiers::NONE)).expect("a key press");
        assert!(k == key);
        assert!(m == Mods::Plain);
    }
}

#[test]
fn modifiers_become_classes() {
    let class = |m: KeyModifiers| key_press(&press(KeyCode::Char('a'), m)).map(|p| p.1);
    assert!(class(KeyModifiers::NONE) == Some(Mods::Plain));
    assert!(class(KeyModifiers::SHIFT) == Some(Mods::Plain));
    assert!(class(KeyModifiers::ALT) == Some(Mods::Alt));
    assert!(class(KeyModifiers::CONTROL) == Some(Mods::Ctrl));
    assert!(class(KeyModifiers::ALT | KeyModifiers::CONTROL) == Some(Mods::CtrlAlt));
    assert!(class(KeyModifiers::ALT | KeyModifiers::SHIFT) == Some(Mods::Alt));
    assert!(class(KeyModifiers::SUPER) == Some(Mods::Plain));
}

#[test]
fn releases_and_other_events_are_no_key_press() {
    let release = Event::Key(KeyEvent::new_with_kind(
        KeyCode::Char('a'),
        KeyModifiers::NONE,
        KeyEventKind::Release,
    ));
    assert!(key_press(&release).is_none());
    let repeat = Event::Key(KeyEvent::new_with_kind(
        KeyCode::Char('a'),
        KeyModifiers::NONE,
        KeyEventKind::Repeat,
    ));
    assert!(key_press(&repeat).is_some());
    assert!(key_press(&Event::Resize(80, 24)).is_none());
    assert!(key_press(&Event::FocusGained).is_none());
}

#[test]
fn events_are_shown_by_their_names() {
    let plain = press(KeyCode::Enter, KeyModifiers::NONE);
    assert_eq!(pretty_str_event(&plain), KeyCode::Enter.to_string());
    let held = press(KeyCode::Char('x'), KeyModifiers::CONTROL | KeyModifiers::ALT);
    assert_eq!(
        pretty_str_event(&held),
        format!("{} {}", KeyModifiers::CONTROL | KeyModifiers::ALT, KeyCode::Char('x'))
    );
    assert!(pretty_str_event(&held).ends_with(" x"));
    assert!(pretty_str_event(&held).len() > 2);
    assert_eq!(pretty_str_event(&Event::Resize(1, 1)), "");
    assert_eq!(pretty_str_event(&Event::FocusLost), "");
    match describe(&held) {
        EventText::Key { plain, modifiers, code } => {
            assert!(!plain);
            assert_eq!(code, "x");
            assert!(!modifiers.is_empty());
        }
        EventText::Other => panic!("a key was expected"),
    }
    match describe(&plain) {
        EventText::Key { plain, modifiers, .. } => {
            assert!(plain);
            assert!(modifiers.is_empty());
        }
        EventText::Other => panic!("a key was expected"),
    }
    assert!(matches!(describe(&Event::FocusGained), EventText::Other));
}

#[test]
fn terminal_events_drive_the_buffer() {
    let mut buf = Buffer::new("*scratch", lines(&["ab", "cd"]), false);
    handle_terminal_event(&mut buf, &press(KeyCode::Char('a'), KeyModifiers::NONE), 24, 80);
    assert_eq!(buf.cursor_pos.line, 1);
    handle_terminal_event(&mut buf, &Event::Resize(10, 10), 24, 80);
    assert_eq!(buf.cursor_pos.line, 1);
    assert_eq!(buf.contents, lines(&["ab", "cd"]));
    handle_terminal_event(&mut buf, &press(KeyCode::Esc, KeyModifiers::NONE), 24, 80);
    assert!(buf.mode == Mode::Default);
    handle_terminal_event(&mut buf, &press(KeyCode::Char('x'), KeyModifiers::SHIFT), 24, 80);
    assert_eq!(buf.contents, lines(&["ab", "xcd"]));
    let release = Event::Key(KeyEvent::new_with_kind(
        KeyCode::Char('y'),
        KeyModifiers::NONE,
        KeyEventKind::Release,
    ));
    handle_terminal_event(&mut buf, &release, 24, 80);
    assert_eq!(buf.contents, lines(&["ab", "xcd"]));
    let alt_q = press(KeyCode::Char('Q'), KeyModifiers::ALT);
    let quit = handle_terminal_event(&mut buf, &alt_q, 24, 80);
    assert!(matches!(quit, Effect::Quit));
}

#[test]
fn print_scrolls_and_frames() {
    let text: Vec<String> = (0..50).map(|i| format!("line {i}")).collect();
    let mut buf = Buffer::new("*scratch", text, false);
    buf.cursor_pos.line = 30;
    let event = press(KeyCode::Char('a'), KeyModifiers::ALT);
    let frame = buf.print(&event, 120, 20, false, false);
    assert_eq!(buf.top, 15);
    let shown = frame.replace("\x1b[0m", "");
    assert!(shown.contains("line 15"));
    assert!(shown.contains("line 32"));
    assert!(!shown.contains("line 14"));
    assert!(!shown.contains("line 33"));
    assert!(frame.contains(&format!("{} a", KeyModifiers::ALT)));
    assert!(frame.ends_with(&format!("{: <120}", "nav :: ")));
    let same = buf.frame(&pretty_str_event(&event), 120, 20, false, false);
    assert_eq!(frame, same);
    buf.alert = bim::buffer::Alert::at(&lines(&["gone"]), 0, 1);
    let frame = buf.print(&event, 40, 20, false, false);
    assert!(frame.contains("gone"));
    assert_eq!(buf.top, 16);
    assert!(buf.alert.contents.is_empty());
}

#[test]
fn readings_of_a_key_event_make_a_key_press() {
    assert!(press_of(true, Key::Enter, false, false).is_none());
    assert!(press_of(true, Key::Char('a'), true, true).is_none());
    assert!(press_of(false, Key::Enter, false, false) == Some((Key::Enter, Mods::Plain)));
    assert!(press_of(false, Key::Char('a'), true, false) == Some((Key::Char('a'), Mods::Alt)));
    assert!(press_of(false, Key::Tab, false, true) == Some((Key::Tab, Mods::Ctrl)));
    assert!(press_of(false, Key::Other, true, true) == Some((Key::Other, Mods::CtrlAlt)));
}

#[test]
fn without_a_key_press_nothing_happens() {
    let mut buf = Buffer::new("*scratch", lines(&["ab", "cd"]), false);
    let effect = handle_press(&mut buf, None, 24, 80);
    assert!(matches!(effect, Effect::Nothing));
    assert_eq!(buf.contents, lines(&["ab", "cd"]));
    assert_eq!((buf.cursor_pos.line, buf.cursor_pos.idx), (0, 0));
    assert!(buf.mode == Mode::Nav);
    handle_press(&mut buf, Some((Key::Char('a'), Mods::Plain)), 24, 80);
    assert_eq!(buf.cursor_pos.line, 1);
    let effect = handle_press(&mut buf, Some((Key::Char('q'), Mods::Alt)), 24, 80);
    assert!(matches!(effect, Effect::Quit));
}

#[test]
fn undefined_modifier_bits_are_not_shown() {
    let odd = Event::Key(KeyEvent::new(
        KeyCode::Char('x'),
        KeyModifiers::from_bits_retain(0b0100_0000),
    ));
    assert_eq!(pretty_str_event(&odd), " x");
    let mixed = Event::Key(KeyEvent::new(
        KeyCode::Char('x'),
        KeyModifiers::from_bits_retain(0b1100_0100),
    ));
    assert_eq!(pretty_str_event(&mixed), format!("{} x", KeyModifiers::ALT));
    let (key, mods) = key_press(&mixed).expect("a key press");
    assert!(key == Key::Char('x'));
    assert!(mods == Mods::Alt);
    let mut buf = Buffer::new("*scratch", lines(&["ab"]), false);
    let frame = buf.print(&odd, 120, 10, false, false);
    assert!(frame.contains(" x"));
}
