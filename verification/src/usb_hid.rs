//! Keystrokes and the HID reports that carry them to the host.

use vstd::prelude::*;

verus! {

/// How many times a report is offered to the host before it is given up.
pub const PUSH_ATTEMPTS: u32 = 64;

/// Pause after each report, so that the host sees every state.
pub const HID_RELEASE_MS: u32 = 12;

/// Left shift in the modifier byte of a keyboard report.
pub const MOD_LSHIFT: u8 = 0x02;

/// A key with the modifiers held while it is pressed.
#[derive(Clone, Copy, Debug, PartialEq, Eq, Structural)]
pub struct KeyStroke {
    modifier: u8,
    keycode: u8,
}

impl KeyStroke {
    /// The keystroke of `keycode` with `modifier` held.
    pub closed spec fn stroke(modifier: u8, keycode: u8) -> KeyStroke {
        KeyStroke { modifier, keycode }
    }

    pub closed spec fn modifier_spec(self) -> u8 {
        self.modifier
    }

    pub closed spec fn keycode_spec(self) -> u8 {
        self.keycode
    }

    /// The key alone, with no modifier.
    pub fn new(keycode: u8) -> (k: Self)
        ensures
            k == KeyStroke::stroke(0, keycode),
            k.modifier_spec() == 0,
            k.keycode_spec() == keycode,
    {
        KeyStroke { modifier: 0, keycode }
    }

    pub fn with_modifier(modifier: u8, keycode: u8) -> (k: Self)
        ensures
            k == KeyStroke::stroke(modifier, keycode),
            k.modifier_spec() == modifier,
            k.keycode_spec() == keycode,
    {
        KeyStroke { modifier, keycode }
    }

    /// The report that holds the modifiers down, with no key.
    pub fn modifier_report(self) -> (r: HidReport)
        ensures
            is_report(r, self.modifier_spec(), no_keys()),
    {
        HidReport { modifier: self.modifier, reserved: 0, leds: 0, keycodes: [0, 0, 0, 0, 0, 0] }
    }

    /// The report that holds the modifiers and the key down.
    pub fn to_report(self) -> (r: HidReport)
        ensures
            is_report(r, self.modifier_spec(), one_key(self.keycode_spec())),
    {
        HidReport {
            modifier: self.modifier,
            reserved: 0,
            leds: 0,
            keycodes: [self.keycode, 0, 0, 0, 0, 0],
        }
    }

    /// The reports that one keystroke is sent as, in order: the modifiers
    /// alone (where there are any), then the modifiers and the key, then all
    /// keys up; the first `count` entries of the array are used.
    pub fn reports(self) -> (rs: ([HidReport; 3], usize))
        ensures
            rs.1 <= 3,
            is_keystroke_sequence(self, rs.0@.take(rs.1 as int)),
    {
        let release = HidReport::released();
        let press = self.to_report();
        if self.modifier != 0 {
            let rs = [self.modifier_report(), press, release];
            assert(rs@.take(3) =~= seq![rs[0], rs[1], rs[2]]);
            (rs, 3)
        } else {
            let rs = [press, release, release];
            assert(rs@.take(2) =~= seq![rs[0], rs[1]]);
            (rs, 2)
        }
    }
}

// Usage ids of the keyboard page; the shifted characters of the key maps
// (`A`, `I`, `#`, `%`, `*`) are these keys with `MOD_LSHIFT`.
pub const KEY_LEFT: u8 = 0x50;
pub const KEY_RIGHT: u8 = 0x4f;
pub const KEY_UP: u8 = 0x52;
pub const KEY_DOWN: u8 = 0x51;
pub const KEY_ENTER: u8 = 0x28;
pub const KEY_ESC: u8 = 0x29;
pub const KEY_SPACE: u8 = 0x2c;
pub const KEY_HOME: u8 = 0x4a;
pub const KEY_END: u8 = 0x4d;
pub const KEY_0: u8 = 0x27;
pub const KEY_1: u8 = 0x1e;
pub const KEY_2: u8 = 0x1f;
pub const KEY_3: u8 = 0x20;
pub const KEY_4: u8 = 0x21;
pub const KEY_5: u8 = 0x22;
pub const KEY_6: u8 = 0x23;
pub const KEY_7: u8 = 0x24;
pub const KEY_8: u8 = 0x25;
pub const KEY_9: u8 = 0x26;
pub const KEY_DOT: u8 = 0x37;
pub const KEY_F7: u8 = 0x40;
pub const KEY_F8: u8 = 0x41;
pub const KEY_F9: u8 = 0x42;
pub const KEY_F10: u8 = 0x43;
pub const KEY_F11: u8 = 0x44;
pub const KEY_F12: u8 = 0x45;
pub const KEY_A: u8 = 0x04;
pub const KEY_I: u8 = 0x0c;

/// `A`: shift with the `KEY_A` key.
pub fn key_capital_a() -> (k: KeyStroke)
    ensures
        k == KeyStroke::stroke(MOD_LSHIFT, KEY_A),
{
    KeyStroke::with_modifier(MOD_LSHIFT, KEY_A)
}

/// `I`: shift with the `KEY_I` key.
pub fn key_capital_i() -> (k: KeyStroke)
    ensures
        k == KeyStroke::stroke(MOD_LSHIFT, KEY_I),
{
    KeyStroke::with_modifier(MOD_LSHIFT, KEY_I)
}

/// `#`: shift with the `KEY_3` key.
pub fn key_hash() -> (k: KeyStroke)
    ensures
        k == KeyStroke::stroke(MOD_LSHIFT, KEY_3),
{
    KeyStroke::with_modifier(MOD_LSHIFT, KEY_3)
}

/// `%`: shift with the `KEY_5` key.
pub fn key_percent() -> (k: KeyStroke)
    ensures
        k == KeyStroke::stroke(MOD_LSHIFT, KEY_5),
{
    KeyStroke::with_modifier(MOD_LSHIFT, KEY_5)
}

/// `*`: shift with the `KEY_8` key.
pub fn key_asterisk() -> (k: KeyStroke)
    ensures
        k == KeyStroke::stroke(MOD_LSHIFT, KEY_8),
{
    KeyStroke::with_modifier(MOD_LSHIFT, KEY_8)
}

/// What to do after one attempt to hand a report to the host.
#[derive(Clone, Copy, Debug, PartialEq, Eq, Structural)]
pub enum PushStep {
    /// Poll the bus and offer the report again.
    Retry,
    /// Stop offering this report.
    Done,
}

/// Decides after attempt number `attempt` (counting from 0) whether a report
/// is offered again: until it is taken, at most `PUSH_ATTEMPTS` times.
pub fn after_push_attempt(attempt: u32, pushed: bool) -> (step: PushStep)
    requires
        attempt < PUSH_ATTEMPTS,
    ensures
        step == (if pushed || attempt + 1 >= PUSH_ATTEMPTS {
            PushStep::Done
        } else {
            PushStep::Retry
        }),
{
    if pushed || attempt + 1 >= PUSH_ATTEMPTS {
        PushStep::Done
    } else {
        PushStep::Retry
    }
}

/// A consumer-control (media) key, by its usage id on the consumer page.
#[derive(Clone, Copy, Debug, PartialEq, Eq, Structural)]
pub struct MediaStroke {
    usage_id: u16,
}

impl MediaStroke {
    pub closed spec fn of(usage_id: u16) -> MediaStroke {
        MediaStroke { usage_id }
    }

    pub closed spec fn usage_spec(self) -> u16 {
        self.usage_id
    }

    pub fn new(usage_id: u16) -> (m: Self)
        ensures
            m == MediaStroke::of(usage_id),
            m.usage_spec() == usage_id,
    {
        MediaStroke { usage_id }
    }

    pub fn usage_id(&self) -> (u: u16)
        ensures
            u == self.usage_spec(),
    {
        self.usage_id
    }

    /// The consumer reports that one media stroke is sent as: the usage
    /// pressed, then released (usage 0).
    pub fn reports(self) -> (rs: [u16; 2])
        ensures
            rs@ == seq![self.usage_spec(), 0u16],
    {
        let rs = [self.usage_id, 0];
        assert(rs@ =~= seq![self.usage_spec(), 0u16]);
        rs
    }
}

// Consumer-page usage ids of the media keys.
pub const MEDIA_TRACK_NEXT: u16 = 0xb5;
pub const MEDIA_TRACK_PREVIOUS: u16 = 0xb6;
pub const MEDIA_PLAY_PAUSE: u16 = 0xcd;
pub const MEDIA_VOLUME_MUTE: u16 = 0xe2;
pub const MEDIA_VOLUME_UP: u16 = 0xe9;
pub const MEDIA_VOLUME_DOWN: u16 = 0xea;

/// A boot-protocol keyboard report: modifier byte, a reserved byte, the LED
/// byte and six key slots.
#[derive(Clone, Copy, Debug, PartialEq, Eq)]
pub struct HidReport {
    pub modifier: u8,
    pub reserved: u8,
    pub leds: u8,
    pub keycodes: [u8; 6],
}

impl HidReport {
    /// The report with every key up.
    pub fn released() -> (r: Self)
        ensures
            is_report(r, 0, no_keys()),
    {
        HidReport { modifier: 0, reserved: 0, leds: 0, keycodes: [0, 0, 0, 0, 0, 0] }
    }
}

/// `r` is a report with these modifiers and these keys in its six slots.
pub open spec fn is_report(r: HidReport, modifier: u8, keys: Seq<u8>) -> bool {
    &&& r.modifier == modifier
    &&& r.reserved == 0
    &&& r.leds == 0
    &&& r.keycodes@ == keys
}

pub open spec fn no_keys() -> Seq<u8> {
    seq![0u8, 0u8, 0u8, 0u8, 0u8, 0u8]
}

pub open spec fn one_key(keycode: u8) -> Seq<u8> {
    seq![keycode, 0u8, 0u8, 0u8, 0u8, 0u8]
}

/// `rs` is what keystroke `k` is sent as: the modifiers alone where there are
/// any, then the modifiers with the key, then every key up.
pub open spec fn is_keystroke_sequence(k: KeyStroke, rs: Seq<HidReport>) -> bool {
    let m = k.modifier_spec();
    let n = rs.len();
    &&& n == if m != 0 { 3nat } else { 2nat }
    &&& m != 0 ==> is_report(rs[0], m, no_keys())
    &&& is_report(rs[n - 2], m, one_key(k.keycode_spec()))
    &&& is_report(rs[n - 1], 0, no_keys())
}

} // verus!
