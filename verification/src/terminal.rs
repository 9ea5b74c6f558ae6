//! The boundary to the terminal library: what the engine reads off a
//! terminal event. The event itself is opaque to the proofs; a handful of
//! small trusted readers take from it the key, the modifier class and the
//! names to show, and everything else works on those. What a reader reads
//! depends on the event alone, so each reading has a name; the names to
//! show differ from platform to platform and have none.

use crate::buffer::Buffer;
use crate::files::{Effect, EffectView};
use crate::input::handle_event;
use crate::keys::{Key, Mods};
use crate::viewport::{event_text, show_event, EventText};
use crossterm::event::{Event, KeyCode, KeyEvent, KeyEventKind, KeyModifiers};
use vstd::prelude::*;

verus! {

/// A terminal event of `crossterm`. Nothing inside it is visible to the proofs.
#[verifier::external_type_specification]
#[verifier::external_body]
pub struct ExEvent(Event);

/// A key event of `crossterm`. Nothing inside it is visible to the proofs.
#[verifier::external_type_specification]
#[verifier::external_body]
pub struct ExKeyEvent(KeyEvent);

/// The key event that `event` is, if it is one.
pub uninterp spec fn key_in(event: Event) -> Option<KeyEvent>;

/// Whether `key` tells of the release of a key.
pub uninterp spec fn release_of(key: KeyEvent) -> bool;

/// Whether Alt was held with `key`.
pub uninterp spec fn alt_of(key: KeyEvent) -> bool;

/// Whether Control was held with `key`.
pub uninterp spec fn ctrl_of(key: KeyEvent) -> bool;

/// Whether no modifier was held with `key`.
pub uninterp spec fn plain_of(key: KeyEvent) -> bool;

/// The key of the engine that the key code of `key` stands for.
pub uninterp spec fn code_of(key: KeyEvent) -> Key;

/// The key press that `event` tells of: none for an event that is no key
/// event and for the release of a key, else the key with the class of its
/// modifiers.
pub open spec fn press_in(event: Event) -> Option<(Key, Mods)> {
    match key_in(event) {
        Some(k) => press(release_of(k), code_of(k), alt_of(k), ctrl_of(k)),
        None => None,
    }
}

/// Whether `text` holds the names under which `event` is shown: no names
/// for an event that is no key event; for a key event the names that the
/// terminal library gives to its modifiers and its key, whatever they are,
/// and whether no modifier was held.
pub open spec fn names_in(event: Event, text: EventText) -> bool {
    match key_in(event) {
        Some(k) => text matches EventText::Key { plain, .. } && plain == plain_of(k),
        None => text is Other,
    }
}

/// Tells the `Key` variant of `crossterm::event::Event` from the others and
/// hands out its key event. Trusted: the result depends on the event alone.
#[verifier::external_body]
fn event_key(event: &Event) -> (key: Option<KeyEvent>)
    ensures
        key == key_in(*event),
{
    match event {
        Event::Key(key) => Some(*key),
        _ => None,
    }
}

/// Tells whether the `kind` of a `crossterm` key event is
/// `KeyEventKind::Release`. Trusted: the result depends on the key event
/// alone.
#[verifier::external_body]
fn is_release(key: &KeyEvent) -> (released: bool)
    ensures
        released == release_of(*key),
{
    matches!(key.kind, KeyEventKind::Release)
}

/// Calls `KeyModifiers::contains` on the modifiers of a key event, for
/// `KeyModifiers::ALT`. Trusted: the result depends on the key event alone.
#[verifier::external_body]
fn has_alt(key: &KeyEvent) -> (held: bool)
    ensures
        held == alt_of(*key),
{
    key.modifiers.contains(KeyModifiers::ALT)
}

/// Calls `KeyModifiers::contains` on the modifiers of a key event, for
/// `KeyModifiers::CONTROL`. Trusted: the result depends on the key event
/// alone.
#[verifier::external_body]
fn has_ctrl(key: &KeyEvent) -> (held: bool)
    ensures
        held == ctrl_of(*key),
{
    key.modifiers.contains(KeyModifiers::CONTROL)
}

/// Calls `KeyModifiers::is_empty` on the modifiers of a key event. Trusted:
/// the result depends on the key event alone.
#[verifier::external_body]
fn is_plain(key: &KeyEvent) -> (plain: bool)
    ensures
        plain == plain_of(*key),
{
    key.modifiers.is_empty()
}

/// Tells the variants of `crossterm::event::KeyCode` apart: each of the
/// keys that the engine knows gives the `Key` of the same name, a character
/// key with its character, and every other key gives `Key::Other`. Trusted:
/// the result depends on the key event alone.
#[verifier::external_body]
fn key_of(key: &KeyEvent) -> (k: Key)
    ensures
        k == code_of(*key),
{
    match key.code {
        KeyCode::Esc => Key::Esc, KeyCode::Backspace => Key::Backspace,
        KeyCode::Delete => Key::Delete, KeyCode::Enter => Key::Enter,
        KeyCode::BackTab => Key::BackTab, KeyCode::Tab => Key::Tab,
        KeyCode::Left => Key::Left, KeyCode::Right => Key::Right,
        KeyCode::Up => Key::Up, KeyCode::Down => Key::Down,
        KeyCode::Home => Key::Home, KeyCode::End => Key::End,
        KeyCode::Char(c) => Key::Char(c),
        _ => Key::Other,
    }
}

/// Formats the key code of a key event by the `Display` of
/// `crossterm::event::KeyCode`. Trusted; nothing is claimed of the text,
/// which differs from platform to platform.
#[verifier::external_body]
fn code_name(key: &KeyEvent) -> (name: String) {
    key.code.to_string()
}

/// Formats the defined modifiers of a key event by the `Display` of
/// `crossterm::event::KeyModifiers`: the bits of the event go through
/// `KeyModifiers::from_bits_truncate` first, since the `Display` does not
/// return on a bit that the type does not define. Trusted; nothing is
/// claimed of the text, which differs from platform to platform.
#[verifier::external_body]
fn modifiers_name(key: &KeyEvent) -> (name: String) {
    KeyModifiers::from_bits_truncate(key.modifiers.bits()).to_string()
}

/// The key press that the readings of a key event stand for: none for the
/// release of a key, else the key with the class of its modifiers.
pub open spec fn press(released: bool, key: Key, has_alt: bool, has_ctrl: bool) -> Option<
    (Key, Mods),
> {
    if released {
        None
    } else {
        Some((key, Mods::class(has_alt, has_ctrl)))
    }
}

/// The key press that the readings of a key event stand for.
pub fn press_of(released: bool, key: Key, has_alt: bool, has_ctrl: bool) -> (p: Option<
    (Key, Mods),
>)
    ensures
        p == press(released, key, has_alt, has_ctrl),
{
    if released {
        None
    } else {
        Some((key, Mods::to_mods(has_alt, has_ctrl)))
    }
}

/// The key and the modifier class of a key press: what `press_of` makes of
/// the readings of a key event. There is none for the release of a key,
/// nor for an event that is no key event.
pub fn key_press(event: &Event) -> (press: Option<(Key, Mods)>)
    ensures
        press == press_in(*event),
{
    match event_key(event) {
        Some(key) => press_of(is_release(&key), key_of(&key), has_alt(&key), has_ctrl(&key)),
        None => None,
    }
}

/// The names under which the status bar shows `event`.
pub fn describe(event: &Event) -> (text: EventText)
    ensures
        names_in(*event, text),
{
    match event_key(event) {
        Some(key) => EventText::Key {
            plain: is_plain(&key),
            modifiers: modifiers_name(&key),
            code: code_name(&key),
        },
        None => EventText::Other,
    }
}

/// Whether `shown` is a text that shows `event`: nothing for an event
/// that is no key event; for a key event the name of the key, behind the
/// names of its modifiers and a space where modifiers were held.
pub open spec fn text_in(event: Event, shown: Seq<char>) -> bool {
    match key_in(event) {
        Some(k) => exists|modifiers: Seq<char>, code: Seq<char>|
            shown == event_text(plain_of(k), modifiers, code),
        None => shown.len() == 0,
    }
}

/// The text that shows `event` in the status bar: what `show_event` makes
/// of the names that `describe` reads off the event.
pub fn pretty_str_event(event: &Event) -> (s: String)
    ensures
        text_in(*event, s@),
{
    let text = describe(event);
    let s = show_event(&text);
    proof {
        match text {
            EventText::Key { plain, modifiers, code } => {
                assert(s@ == event_text(plain_of(key_in(*event)->0), modifiers@, code@));
            },
            EventText::Other => {},
        }
    }
    s
}

/// Handles what was read off a terminal event: a key press is handled as
/// `handle_event` handles its key, and without a key press the buffer stays
/// as it is and nothing is left to the caller.
pub fn handle_press(
    buf: &mut Buffer,
    press: Option<(Key, Mods)>,
    height: usize,
    width: usize,
) -> (effect: Effect)
    requires
        old(buf).wf(),
    ensures
        final(buf).wf(),
        old(buf)@.fresh() ==> final(buf)@.fresh(),
        match press {
            Some(p) => final(buf)@ == old(buf)@.step(
                p.0,
                p.1,
                height as int,
                final(buf).alert.time as int,
            ) && effect@ == old(buf)@.effect(p.0, p.1),
            None => final(buf)@ == old(buf)@ && effect@ == EffectView::Nothing,
        },
{
    match press {
        Some((key, mods)) => handle_event(buf, key, &mods, height, width),
        None => Effect::Nothing,
    }
}

/// Handles one terminal event: what `handle_press` does with the key press
/// that `key_press` reads off the event. A key press is handled by the
/// table of the mode, and any other event leaves the buffer as it is.
pub fn handle_terminal_event(
    buf: &mut Buffer,
    event: &Event,
    height: usize,
    width: usize,
) -> (effect: Effect)
    requires
        old(buf).wf(),
    ensures
        final(buf).wf(),
        old(buf)@.fresh() ==> final(buf)@.fresh(),
        match press_in(*event) {
            Some(p) => final(buf)@ == old(buf)@.step(
                p.0,
                p.1,
                height as int,
                final(buf).alert.time as int,
            ) && effect@ == old(buf)@.effect(p.0, p.1),
            None => final(buf)@ == old(buf)@ && effect@ == EffectView::Nothing,
        },
{
    let press = key_press(event);
    handle_press(buf, press, height, width)
}

impl Buffer {
    /// Renders the buffer for a screen of `width` by `height` cells after
    /// `event`: moves the window to where the cursor is visible, makes the
    /// frame with the names of the event in the status bar, and takes the
    /// message off the screen once its time is over. Returns the frame.
    pub fn print(
        &mut self,
        event: &Event,
        width: usize,
        height: usize,
        profile: bool,
        newlines: bool,
    ) -> (frame: String)
        requires
            old(self).wf(),
            old(self).iter_time < u128::MAX,
            width + 5 <= usize::MAX,
            old(self)@.line + old(self)@.alert.len() + 6 <= usize::MAX,
        ensures
            final(self).wf(),
            old(self)@.fresh() ==> final(self)@.fresh(),
            final(self)@ == old(self)@.scroll(height as int, profile) || final(self)@ == old(
                self,
            )@.scroll(height as int, profile).clear_alert(final(self).alert.time as int),
            exists|text: Seq<char>|
                text_in(*event, text) && frame@ == old(self)@.scroll(
                    height as int,
                    profile,
                ).frame(
                    text,
                    width as int,
                    height as int,
                    profile,
                    newlines,
                ),
    {
        self.scroll(height, profile);
        let text = pretty_str_event(event);
        let frame = self.frame(text.as_str(), width, height, profile, newlines);
        let _ = self.expire_alert();
        frame
    }
}

} // verus!
