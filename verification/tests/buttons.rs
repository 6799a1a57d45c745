use cckeyboard::button::{is_button_pressed, sample_button_idle_level, ButtonEvent, ButtonInput};

#[test]
fn idle_level_follows_the_majority_of_samples() {
    assert!(sample_button_idle_level(&[true; 20]));
    assert!(!sample_button_idle_level(&[false; 20]));
    let mut mixed = [true; 20];
    for i in 0..11 {
        mixed[i] = false;
    }
    assert!(!sample_button_idle_level(&mixed));
    let mut even = [true; 20];
    for i in 0..10 {
        even[i] = false;
    }
    assert!(sample_button_idle_level(&even));
    assert!(sample_button_idle_level(&[]));
}

#[test]
fn idle_counts_saturate() {
    let mut v = vec![false; 300];
    v.extend(vec![true; 256]);
    assert!(sample_button_idle_level(&v));
    let mut w = vec![false; 256];
    w.extend(vec![true; 254]);
    assert!(!sample_button_idle_level(&w));
}

#[test]
fn pressed_means_away_from_idle() {
    assert!(is_button_pressed(false, true));
    assert!(!is_button_pressed(true, true));
    assert!(is_button_pressed(true, false));
    assert!(!is_button_pressed(false, false));
}

#[test]
fn debounced_press_and_release() {
    let mut b = ButtonInput::new(&[true; 20]);
    assert!(!b.needs_debounce(true));
    assert_eq!(b.poll(true, true), ButtonEvent::Unchanged);
    assert!(b.needs_debounce(false));
    assert_eq!(b.poll(false, true), ButtonEvent::Unchanged);
    assert_eq!(b.poll(false, false), ButtonEvent::Pressed);
    assert_eq!(b.poll(false, false), ButtonEvent::Unchanged);
    assert_eq!(b.poll(true, false), ButtonEvent::Unchanged);
    assert_eq!(b.poll(true, true), ButtonEvent::Released);
}

#[test]
fn pull_down_key_is_pressed_high() {
    let mut b = ButtonInput::new(&[false; 20]);
    assert_eq!(b.poll(true, true), ButtonEvent::Pressed);
    assert_eq!(b.poll(false, false), ButtonEvent::Released);
}

#[test]
fn events_alternate_starting_with_a_press() {
    let mut b = ButtonInput::new(&[true; 20]);
    let readings = [
        (false, false), (false, false), (true, false), (true, true), (true, true),
        (false, true), (false, false), (true, true), (false, false), (true, true),
    ];
    let mut events = Vec::new();
    for (first, settled) in readings {
        let e = b.poll(first, settled);
        if e != ButtonEvent::Unchanged {
            events.push(e);
        }
    }
    assert_eq!(
        events,
        vec![
            ButtonEvent::Pressed,
            ButtonEvent::Released,
            ButtonEvent::Pressed,
            ButtonEvent::Released,
            ButtonEvent::Pressed,
            ButtonEvent::Released,
        ]
    );
}
