//! What each gesture on the three keys produces in each mode.

use vstd::prelude::*;

use crate::usb_hid::{
    key_asterisk, key_capital_a, key_capital_i, key_hash, key_percent, KeyStroke, MediaStroke, KEY_0, KEY_1, KEY_2, KEY_3, KEY_4, KEY_5, KEY_6, KEY_7, KEY_8, KEY_9,
    KEY_A, KEY_DOT, KEY_DOWN, KEY_END, KEY_ENTER, KEY_ESC, KEY_HOME, KEY_I, KEY_LEFT, KEY_RIGHT,
    KEY_SPACE, KEY_UP, MEDIA_PLAY_PAUSE, MEDIA_TRACK_NEXT, MEDIA_TRACK_PREVIOUS,
    MEDIA_VOLUME_DOWN, MEDIA_VOLUME_MUTE, MEDIA_VOLUME_UP, MOD_LSHIFT,
};

verus! {

#[derive(Clone, Copy, Debug, PartialEq, Eq, Structural)]
pub enum PhysicalKey {
    K1,
    K2,
    K3,
}

/// A gesture recognised on the keys.
#[derive(Clone, Copy, Debug, PartialEq, Eq, Structural)]
pub enum KeyAction {
    /// No gesture was completed.
    Idle,
    /// All three keys held long enough to open the mode selector.
    SelectorEntry,
    Short(PhysicalKey),
    Long(PhysicalKey),
    /// Two keys pressed together, the lower-numbered first.
    Chord2(PhysicalKey, PhysicalKey),
    /// All three keys pressed together.
    Chord3,
}

#[derive(Clone, Copy, Debug, PartialEq, Eq, Structural)]
pub enum Mode {
    Vim,
    Number,
    Navigation,
    Media,
}

/// What a gesture sends to the host.
#[derive(Clone, Copy, Debug, PartialEq, Eq, Structural)]
pub enum Stroke {
    Key(KeyStroke),
    Media(MediaStroke),
}

pub open spec fn key(code: u8) -> Option<Stroke> {
    Some(Stroke::Key(KeyStroke::stroke(0, code)))
}

pub open spec fn shifted(code: u8) -> Option<Stroke> {
    Some(Stroke::Key(KeyStroke::stroke(MOD_LSHIFT, code)))
}

pub open spec fn media(usage: u16) -> Option<Stroke> {
    Some(Stroke::Media(MediaStroke::of(usage)))
}

/// Vim mode: `i`, `I`, Esc, `.`, `a`, `A`, `#`, `%`, `*`.
pub open spec fn vim_map(action: KeyAction) -> Option<Stroke> {
    match action {
        KeyAction::Short(PhysicalKey::K1) => key(KEY_I),
        KeyAction::Long(PhysicalKey::K1) => shifted(KEY_I),
        KeyAction::Short(PhysicalKey::K2) => key(KEY_ESC),
        KeyAction::Long(PhysicalKey::K2) => key(KEY_DOT),
        KeyAction::Short(PhysicalKey::K3) => key(KEY_A),
        KeyAction::Long(PhysicalKey::K3) => shifted(KEY_A),
        KeyAction::Chord2(PhysicalKey::K1, PhysicalKey::K2) => shifted(KEY_3),
        KeyAction::Chord2(PhysicalKey::K1, PhysicalKey::K3) => shifted(KEY_5),
        KeyAction::Chord2(PhysicalKey::K2, PhysicalKey::K3) => shifted(KEY_8),
        _ => None,
    }
}

/// Number mode: digits 1 to 9 and 0.
pub open spec fn number_map(action: KeyAction) -> Option<Stroke> {
    match action {
        KeyAction::Short(PhysicalKey::K1) => key(KEY_1),
        KeyAction::Long(PhysicalKey::K1) => key(KEY_4),
        KeyAction::Short(PhysicalKey::K2) => key(KEY_2),
        KeyAction::Long(PhysicalKey::K2) => key(KEY_5),
        KeyAction::Short(PhysicalKey::K3) => key(KEY_3),
        KeyAction::Long(PhysicalKey::K3) => key(KEY_6),
        KeyAction::Chord2(PhysicalKey::K1, PhysicalKey::K2) => key(KEY_7),
        KeyAction::Chord2(PhysicalKey::K1, PhysicalKey::K3) => key(KEY_8),
        KeyAction::Chord2(PhysicalKey::K2, PhysicalKey::K3) => key(KEY_9),
        KeyAction::Chord3 => key(KEY_0),
        _ => None,
    }
}

/// Navigation mode: arrows, Home, End, Enter, Esc and Space.
pub open spec fn navigation_map(action: KeyAction) -> Option<Stroke> {
    match action {
        KeyAction::Short(PhysicalKey::K1) => key(KEY_LEFT),
        KeyAction::Long(PhysicalKey::K1) => key(KEY_HOME),
        KeyAction::Short(PhysicalKey::K2) => key(KEY_ENTER),
        KeyAction::Long(PhysicalKey::K2) => key(KEY_ESC),
        KeyAction::Short(PhysicalKey::K3) => key(KEY_RIGHT),
        KeyAction::Long(PhysicalKey::K3) => key(KEY_END),
        KeyAction::Chord2(PhysicalKey::K1, PhysicalKey::K2) => key(KEY_UP),
        KeyAction::Chord2(PhysicalKey::K1, PhysicalKey::K3) => key(KEY_SPACE),
        KeyAction::Chord2(PhysicalKey::K2, PhysicalKey::K3) => key(KEY_DOWN),
        _ => None,
    }
}

/// Media mode: track, play and volume keys; long presses send nothing.
pub open spec fn media_map(action: KeyAction) -> Option<Stroke> {
    match action {
        KeyAction::Short(PhysicalKey::K1) => media(MEDIA_TRACK_PREVIOUS),
        KeyAction::Short(PhysicalKey::K2) => media(MEDIA_PLAY_PAUSE),
        KeyAction::Short(PhysicalKey::K3) => media(MEDIA_TRACK_NEXT),
        KeyAction::Chord2(PhysicalKey::K1, PhysicalKey::K2) => media(MEDIA_VOLUME_DOWN),
        KeyAction::Chord2(PhysicalKey::K1, PhysicalKey::K3) => media(MEDIA_VOLUME_MUTE),
        KeyAction::Chord2(PhysicalKey::K2, PhysicalKey::K3) => media(MEDIA_VOLUME_UP),
        _ => None,
    }
}

pub open spec fn key_map(mode: Mode, action: KeyAction) -> Option<Stroke> {
    match mode {
        Mode::Vim => vim_map(action),
        Mode::Number => number_map(action),
        Mode::Navigation => navigation_map(action),
        Mode::Media => media_map(action),
    }
}

/// No mode sends anything when no gesture was completed or when the
/// selector is being opened.
pub proof fn lemma_no_stroke_without_gesture(mode: Mode)
    ensures
        key_map(mode, KeyAction::Idle) is None,
        key_map(mode, KeyAction::SelectorEntry) is None,
{
}

/// All three keys together send something in Number mode only (the digit
/// 0), and long presses send nothing in Media mode.
pub proof fn lemma_chord3_and_media_long(mode: Mode, k: PhysicalKey)
    ensures
        key_map(mode, KeyAction::Chord3) is Some <==> mode == Mode::Number,
        key_map(Mode::Media, KeyAction::Long(k)) is None,
{
}

fn key_stroke(code: u8) -> (r: Option<Stroke>)
    ensures
        r == key(code),
{
    Some(Stroke::Key(KeyStroke::new(code)))
}

fn media_stroke(usage: u16) -> (r: Option<Stroke>)
    ensures
        r == media(usage),
{
    Some(Stroke::Media(MediaStroke::new(usage)))
}

pub fn map_action(mode: Mode, action: KeyAction) -> (r: Option<Stroke>)
    ensures
        r == key_map(mode, action),
{
    match mode {
        Mode::Vim => map_vim_mode(action),
        Mode::Number => map_number_mode(action),
        Mode::Navigation => map_navigation_mode(action),
        Mode::Media => map_media_mode(action),
    }
}

pub fn map_vim_mode(action: KeyAction) -> (r: Option<Stroke>)
    ensures
        r == vim_map(action),
{
    match action {
        KeyAction::Short(PhysicalKey::K1) => key_stroke(KEY_I),
        KeyAction::Long(PhysicalKey::K1) => Some(Stroke::Key(key_capital_i())),
        KeyAction::Short(PhysicalKey::K2) => key_stroke(KEY_ESC),
        KeyAction::Long(PhysicalKey::K2) => key_stroke(KEY_DOT),
        KeyAction::Short(PhysicalKey::K3) => key_stroke(KEY_A),
        KeyAction::Long(PhysicalKey::K3) => Some(Stroke::Key(key_capital_a())),
        KeyAction::Chord2(PhysicalKey::K1, PhysicalKey::K2) => Some(Stroke::Key(key_hash())),
        KeyAction::Chord2(PhysicalKey::K1, PhysicalKey::K3) => Some(Stroke::Key(key_percent())),
        KeyAction::Chord2(PhysicalKey::K2, PhysicalKey::K3) => Some(Stroke::Key(key_asterisk())),
        _ => None,
    }
}

pub fn map_number_mode(action: KeyAction) -> (r: Option<Stroke>)
    ensures
        r == number_map(action),
{
    match action {
        KeyAction::Short(PhysicalKey::K1) => key_stroke(KEY_1),
        KeyAction::Long(PhysicalKey::K1) => key_stroke(KEY_4),
        KeyAction::Short(PhysicalKey::K2) => key_stroke(KEY_2),
        KeyAction::Long(PhysicalKey::K2) => key_stroke(KEY_5),
        KeyAction::Short(PhysicalKey::K3) => key_stroke(KEY_3),
        KeyAction::Long(PhysicalKey::K3) => key_stroke(KEY_6),
        KeyAction::Chord2(PhysicalKey::K1, PhysicalKey::K2) => key_stroke(KEY_7),
        KeyAction::Chord2(PhysicalKey::K1, PhysicalKey::K3) => key_stroke(KEY_8),
        KeyAction::Chord2(PhysicalKey::K2, PhysicalKey::K3) => key_stroke(KEY_9),
        KeyAction::Chord3 => key_stroke(KEY_0),
        _ => None,
    }
}

pub fn map_navigation_mode(action: KeyAction) -> (r: Option<Stroke>)
    ensures
        r == navigation_map(action),
{
    match action {
        KeyAction::Short(PhysicalKey::K1) => key_stroke(KEY_LEFT),
        KeyAction::Long(PhysicalKey::K1) => key_stroke(KEY_HOME),
        KeyAction::Short(PhysicalKey::K2) => key_stroke(KEY_ENTER),
        KeyAction::Long(PhysicalKey::K2) => key_stroke(KEY_ESC),
        KeyAction::Short(PhysicalKey::K3) => key_stroke(KEY_RIGHT),
        KeyAction::Long(PhysicalKey::K3) => key_stroke(KEY_END),
        KeyAction::Chord2(PhysicalKey::K1, PhysicalKey::K2) => key_stroke(KEY_UP),
        KeyAction::Chord2(PhysicalKey::K1, PhysicalKey::K3) => key_stroke(KEY_SPACE),
        KeyAction::Chord2(PhysicalKey::K2, PhysicalKey::K3) => key_stroke(KEY_DOWN),
        _ => None,
    }
}

pub fn map_media_mode(action: KeyAction) -> (r: Option<Stroke>)
    ensures
        r == media_map(action),
{
    match action {
        KeyAction::Short(PhysicalKey::K1) => media_stroke(MEDIA_TRACK_PREVIOUS),
        KeyAction::Short(PhysicalKey::K2) => media_stroke(MEDIA_PLAY_PAUSE),
        KeyAction::Short(PhysicalKey::K3) => media_stroke(MEDIA_TRACK_NEXT),
        KeyAction::Chord2(PhysicalKey::K1, PhysicalKey::K2) => media_stroke(MEDIA_VOLUME_DOWN),
        KeyAction::Chord2(PhysicalKey::K1, PhysicalKey::K3) => media_stroke(MEDIA_VOLUME_MUTE),
        KeyAction::Chord2(PhysicalKey::K2, PhysicalKey::K3) => media_stroke(MEDIA_VOLUME_UP),
        _ => None,
    }
}

} // verus!
