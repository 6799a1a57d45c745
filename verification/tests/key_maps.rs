use cckeyboard::keymap::{map_action, KeyAction, Mode, PhysicalKey, Stroke};
use cckeyboard::usb_hid::{
    KeyStroke, MediaStroke, KEY_0, KEY_1, KEY_2, KEY_3, KEY_4, KEY_5, KEY_6, KEY_7, KEY_8, KEY_9,
    KEY_A, KEY_DOT, KEY_DOWN, KEY_END, KEY_ENTER, KEY_ESC, KEY_HOME, KEY_I, KEY_LEFT, KEY_RIGHT,
    KEY_SPACE, KEY_UP, MEDIA_PLAY_PAUSE, MEDIA_TRACK_NEXT, MEDIA_TRACK_PREVIOUS,
    MEDIA_VOLUME_DOWN, MEDIA_VOLUME_MUTE, MEDIA_VOLUME_UP, MOD_LSHIFT,
};

use KeyAction::{Chord2, Chord3, Long, Short};
use PhysicalKey::{K1, K2, K3};

fn key(code: u8) -> Option<Stroke> {
    Some(Stroke::Key(KeyStroke::new(code)))
}

fn shifted(code: u8) -> Option<Stroke> {
    Some(Stroke::Key(KeyStroke::with_modifier(MOD_LSHIFT, code)))
}

fn media(usage: u16) -> Option<Stroke> {
    Some(Stroke::Media(MediaStroke::new(usage)))
}

#[test]
fn vim_mode_table() {
    let m = Mode::Vim;
    assert_eq!(map_action(m, Short(K1)), key(KEY_I));
    assert_eq!(map_action(m, Long(K1)), shifted(KEY_I));
    assert_eq!(map_action(m, Short(K2)), key(KEY_ESC));
    assert_eq!(map_action(m, Long(K2)), key(KEY_DOT));
    assert_eq!(map_action(m, Short(K3)), key(KEY_A));
    assert_eq!(map_action(m, Long(K3)), shifted(KEY_A));
    assert_eq!(map_action(m, Chord2(K1, K2)), shifted(KEY_3));
    assert_eq!(map_action(m, Chord2(K1, K3)), shifted(KEY_5));
    assert_eq!(map_action(m, Chord2(K2, K3)), shifted(KEY_8));
    assert_eq!(map_action(m, Chord3), None);
}

#[test]
fn number_mode_table() {
    let m = Mode::Number;
    assert_eq!(map_action(m, Short(K1)), key(KEY_1));
    assert_eq!(map_action(m, Long(K1)), key(KEY_4));
    assert_eq!(map_action(m, Short(K2)), key(KEY_2));
    assert_eq!(map_action(m, Long(K2)), key(KEY_5));
    assert_eq!(map_action(m, Short(K3)), key(KEY_3));
    assert_eq!(map_action(m, Long(K3)), key(KEY_6));
    assert_eq!(map_action(m, Chord2(K1, K2)), key(KEY_7));
    assert_eq!(map_action(m, Chord2(K1, K3)), key(KEY_8));
    assert_eq!(map_action(m, Chord2(K2, K3)), key(KEY_9));
    assert_eq!(map_action(m, Chord3), key(KEY_0));
}

#[test]
fn navigation_mode_table() {
    let m = Mode::Navigation;
    assert_eq!(map_action(m, Short(K1)), key(KEY_LEFT));
    assert_eq!(map_action(m, Long(K1)), key(KEY_HOME));
    assert_eq!(map_action(m, Short(K2)), key(KEY_ENTER));
    assert_eq!(map_action(m, Long(K2)), key(KEY_ESC));
    assert_eq!(map_action(m, Short(K3)), key(KEY_RIGHT));
    assert_eq!(map_action(m, Long(K3)), key(KEY_END));
    assert_eq!(map_action(m, Chord2(K1, K2)), key(KEY_UP));
    assert_eq!(map_action(m, Chord2(K1, K3)), key(KEY_SPACE));
    assert_eq!(map_action(m, Chord2(K2, K3)), key(KEY_DOWN));
    assert_eq!(map_action(m, Chord3), None);
}

#[test]
fn media_mode_table() {
    let m = Mode::Media;
    assert_eq!(map_action(m, Short(K1)), media(MEDIA_TRACK_PREVIOUS));
    assert_eq!(map_action(m, Short(K2)), media(MEDIA_PLAY_PAUSE));
    assert_eq!(map_action(m, Short(K3)), media(MEDIA_TRACK_NEXT));
    assert_eq!(map_action(m, Chord2(K1, K2)), media(MEDIA_VOLUME_DOWN));
    assert_eq!(map_action(m, Chord2(K1, K3)), media(MEDIA_VOLUME_MUTE));
    assert_eq!(map_action(m, Chord2(K2, K3)), media(MEDIA_VOLUME_UP));
    assert_eq!(map_action(m, Long(K1)), None);
    assert_eq!(map_action(m, Long(K2)), None);
    assert_eq!(map_action(m, Chord3), None);
}

#[test]
fn no_gesture_sends_nothing() {
    for m in [Mode::Vim, Mode::Number, Mode::Navigation, Mode::Media] {
        assert_eq!(map_action(m, KeyAction::Idle), None);
        assert_eq!(map_action(m, KeyAction::SelectorEntry), None);
        assert_eq!(map_action(m, Chord2(K2, K1)), None);
    }
}
