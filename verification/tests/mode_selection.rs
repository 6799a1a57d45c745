use cckeyboard::keymap::{KeyAction, Mode, PhysicalKey, Stroke};
use cckeyboard::modes::{blink_count, handle_action, selector_token_eq, Effect, ModeSelector, SelectorToken};
use cckeyboard::usb_hid::{KeyStroke, KEY_1, KEY_I};

fn select(keys: &[PhysicalKey]) -> (Mode, Effect) {
    let mut selector = ModeSelector::new();
    let mut mode = Mode::Vim;
    assert_eq!(handle_action(KeyAction::SelectorEntry, &mut selector, &mut mode), Effect::SelectorOpened);
    for k in keys {
        assert_eq!(handle_action(KeyAction::Short(*k), &mut selector, &mut mode), Effect::Nothing);
    }
    let e = handle_action(KeyAction::Short(PhysicalKey::K2), &mut selector, &mut mode);
    (mode, e)
}

#[test]
fn readme_selection_sequences() {
    const K1: PhysicalKey = PhysicalKey::K1;
    const K3: PhysicalKey = PhysicalKey::K3;
    assert_eq!(select(&[K1]), (Mode::Number, Effect::ModeChosen(Mode::Number)));
    assert_eq!(select(&[K3]), (Mode::Navigation, Effect::ModeChosen(Mode::Navigation)));
    assert_eq!(select(&[K1, K3]), (Mode::Media, Effect::ModeChosen(Mode::Media)));
    assert_eq!(select(&[]), (Mode::Vim, Effect::ModeChosen(Mode::Vim)));
    assert_eq!(select(&[K3, K1]), (Mode::Vim, Effect::ModeChosen(Mode::Vim)));
    assert_eq!(select(&[K1, K1]), (Mode::Vim, Effect::ModeChosen(Mode::Vim)));
    assert_eq!(select(&[K1; 9]), (Mode::Vim, Effect::ModeChosen(Mode::Vim)));
}

#[test]
fn selector_swallows_other_gestures() {
    let mut selector = ModeSelector::new();
    let mut mode = Mode::Number;
    handle_action(KeyAction::SelectorEntry, &mut selector, &mut mode);
    assert_eq!(handle_action(KeyAction::Long(PhysicalKey::K1), &mut selector, &mut mode), Effect::Nothing);
    assert_eq!(handle_action(KeyAction::Chord3, &mut selector, &mut mode), Effect::Nothing);
    assert_eq!(handle_action(KeyAction::Idle, &mut selector, &mut mode), Effect::Nothing);
    assert_eq!(mode, Mode::Number);
    assert_eq!(
        handle_action(KeyAction::Short(PhysicalKey::K2), &mut selector, &mut mode),
        Effect::ModeChosen(Mode::Vim)
    );
}

#[test]
fn closed_selector_sends_strokes() {
    let mut selector = ModeSelector::new();
    let mut mode = Mode::Vim;
    assert_eq!(
        handle_action(KeyAction::Short(PhysicalKey::K1), &mut selector, &mut mode),
        Effect::Send(Stroke::Key(KeyStroke::new(KEY_I)))
    );
    mode = Mode::Number;
    assert_eq!(
        handle_action(KeyAction::Short(PhysicalKey::K1), &mut selector, &mut mode),
        Effect::Send(Stroke::Key(KeyStroke::new(KEY_1)))
    );
    assert_eq!(handle_action(KeyAction::Long(PhysicalKey::K1), &mut ModeSelector::new(), &mut Mode::Media), Effect::Nothing);
}

#[test]
fn selector_push_and_match() {
    let mut s = ModeSelector::new();
    s.enter();
    s.push(SelectorToken::K1);
    assert!(s.matches(&[SelectorToken::K1]));
    assert!(!s.matches(&[SelectorToken::K3]));
    assert!(!s.matches(&[]));
    for _ in 0..10 {
        s.push(SelectorToken::K3);
    }
    let mut expected = [SelectorToken::K3; 8];
    expected[0] = SelectorToken::K1;
    assert!(s.matches(&expected));
    assert_eq!(s.confirm(), Mode::Vim);
    assert!(s.matches(&[]));
}

#[test]
fn token_equality() {
    assert!(selector_token_eq(SelectorToken::K1, SelectorToken::K1));
    assert!(selector_token_eq(SelectorToken::K3, SelectorToken::K3));
    assert!(!selector_token_eq(SelectorToken::K1, SelectorToken::K3));
}

#[test]
fn led_blinks_per_mode() {
    assert_eq!(blink_count(Mode::Vim), 1);
    assert_eq!(blink_count(Mode::Number), 2);
    assert_eq!(blink_count(Mode::Navigation), 2);
    assert_eq!(blink_count(Mode::Media), 3);
}
