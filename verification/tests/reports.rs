use cckeyboard::usb_hid::{
    key_asterisk, key_capital_a, key_capital_i, key_hash, key_percent, after_push_attempt, HidReport, KeyStroke, MediaStroke, PushStep, KEY_3, KEY_A, KEY_LEFT,
    MEDIA_PLAY_PAUSE, MOD_LSHIFT, PUSH_ATTEMPTS,
};

fn report(modifier: u8, key: u8) -> HidReport {
    HidReport { modifier, reserved: 0, leds: 0, keycodes: [key, 0, 0, 0, 0, 0] }
}

#[test]
fn plain_key_is_press_then_release() {
    let k = KeyStroke::new(KEY_LEFT);
    assert_eq!(k, KeyStroke::with_modifier(0, 0x50));
    let (rs, n) = k.reports();
    assert_eq!(&rs[..n], &[report(0, 0x50), report(0, 0)]);
}

#[test]
fn shifted_key_presses_the_modifier_first() {
    let k = KeyStroke::with_modifier(MOD_LSHIFT, KEY_3);
    assert_eq!(k.modifier_report(), report(2, 0));
    assert_eq!(k.to_report(), report(2, 0x20));
    let (rs, n) = k.reports();
    assert_eq!(&rs[..n], &[report(2, 0), report(2, 0x20), report(0, 0)]);
}

#[test]
fn released_report_is_empty() {
    assert_eq!(HidReport::released(), report(0, 0));
    assert_eq!(KeyStroke::new(KEY_A).to_report(), report(0, 4));
}

#[test]
fn media_stroke_is_usage_then_zero() {
    let m = MediaStroke::new(MEDIA_PLAY_PAUSE);
    assert_eq!(m.usage_id(), 0xcd);
    assert_eq!(m.reports(), [0xcd, 0]);
}

#[test]
fn report_is_offered_at_most_sixty_four_times() {
    assert_eq!(PUSH_ATTEMPTS, 64);
    assert_eq!(after_push_attempt(0, true), PushStep::Done);
    assert_eq!(after_push_attempt(0, false), PushStep::Retry);
    assert_eq!(after_push_attempt(62, false), PushStep::Retry);
    assert_eq!(after_push_attempt(63, false), PushStep::Done);
}

#[test]
fn shifted_characters_are_shift_plus_key() {
    assert_eq!(key_capital_a(), KeyStroke::with_modifier(0x02, 0x04));
    assert_eq!(key_capital_i(), KeyStroke::with_modifier(0x02, 0x0c));
    assert_eq!(key_hash(), KeyStroke::with_modifier(0x02, 0x20));
    assert_eq!(key_percent(), KeyStroke::with_modifier(0x02, 0x22));
    assert_eq!(key_asterisk(), KeyStroke::with_modifier(0x02, 0x25));
}
