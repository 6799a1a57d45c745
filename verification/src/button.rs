//! Debouncing of one key read as a logic level.

use vstd::prelude::*;

verus! {

/// Time between the first reading that differs from the held state and the
/// reading that confirms it.
pub const DEBOUNCE_MS: u32 = 20;

/// Number of one-millisecond samples taken to learn the idle level of a key.
pub const BUTTON_IDLE_SAMPLE_MS: u32 = 20;

#[derive(Clone, Copy, Debug, PartialEq, Eq, Structural)]
pub enum ButtonEvent {
    Unchanged,
    Pressed,
    Released,
}

/// Number of `true` entries in `s`.
pub open spec fn count_high(s: Seq<bool>) -> nat
    decreases s.len(),
{
    if s.len() == 0 {
        0
    } else {
        count_high(s.drop_last()) + if s.last() {
            1nat
        } else {
            0nat
        }
    }
}

pub open spec fn saturated_u8(n: nat) -> nat {
    if n > u8::MAX as nat {
        u8::MAX as nat
    } else {
        n
    }
}

/// The idle level that a run of samples shows: high unless low samples
/// outnumber high ones, each count saturating at 255.
pub open spec fn idle_level(samples: Seq<bool>) -> bool {
    saturated_u8(count_high(samples)) >= saturated_u8((samples.len() - count_high(samples)) as nat)
}

/// Learns the idle level of a key from samples of its level (`true` for
/// high).
pub fn sample_button_idle_level(samples: &[bool]) -> (high: bool)
    ensures
        high == idle_level(samples@),
{
    let mut high_count: u8 = 0;
    let mut low_count: u8 = 0;
    let n = samples.len();
    let mut i: usize = 0;
    while i < n
        invariant
            n == samples@.len(),
            i <= n,
            count_high(samples@.take(i as int)) <= i,
            high_count as nat == saturated_u8(count_high(samples@.take(i as int))),
            low_count as nat == saturated_u8((i - count_high(samples@.take(i as int))) as nat),
        decreases n - i,
    {
        assert(samples@.take(i + 1).drop_last() =~= samples@.take(i as int));
        if samples[i] {
            high_count = high_count.saturating_add(1);
        } else {
            low_count = low_count.saturating_add(1);
        }
        i = i + 1;
    }
    assert(samples@.take(n as int) =~= samples@);
    high_count >= low_count
}

/// Whether a key reads as pressed: its level differs from the idle level.
pub fn is_button_pressed(level_high: bool, idle_is_high: bool) -> (pressed: bool)
    ensures
        pressed == (level_high != idle_is_high),
{
    if idle_is_high {
        !level_high
    } else {
        level_high
    }
}

/// One poll of a key with idle level `idle` that is held `down`, on the
/// reading `first` and the confirming reading `settled`: the new held state
/// and the event reported.
pub open spec fn poll_step(idle: bool, down: bool, first: bool, settled: bool) -> (bool, ButtonEvent) {
    if (first != idle) != down && (settled != idle) != down {
        let now = settled != idle;
        (now, if now { ButtonEvent::Pressed } else { ButtonEvent::Released })
    } else {
        (down, ButtonEvent::Unchanged)
    }
}

/// The held state after polls on each pair of `readings`, in order.
pub open spec fn down_after(idle: bool, down: bool, readings: Seq<(bool, bool)>) -> bool
    decreases readings.len(),
{
    if readings.len() == 0 {
        down
    } else {
        let prev = down_after(idle, down, readings.drop_last());
        poll_step(idle, prev, readings.last().0, readings.last().1).0
    }
}

/// The events other than `Unchanged` that polls on `readings` report, in
/// order.
pub open spec fn reported_events(idle: bool, down: bool, readings: Seq<(bool, bool)>) -> Seq<
    ButtonEvent,
>
    decreases readings.len(),
{
    if readings.len() == 0 {
        Seq::empty()
    } else {
        let prev = down_after(idle, down, readings.drop_last());
        let e = poll_step(idle, prev, readings.last().0, readings.last().1).1;
        let before = reported_events(idle, down, readings.drop_last());
        if e == ButtonEvent::Unchanged {
            before
        } else {
            before.push(e)
        }
    }
}

/// From a released key (as `ButtonInput::new` leaves it), whatever the
/// readings, the reported events alternate Pressed, Released, Pressed, ...,
/// and the key is held down exactly when the last of them was a press.
pub proof fn lemma_events_alternate(idle: bool, readings: Seq<(bool, bool)>)
    ensures
        forall|i: int|
            0 <= i < reported_events(idle, false, readings).len() ==> #[trigger] reported_events(
                idle,
                false,
                readings,
            )[i] == if i % 2 == 0 {
                ButtonEvent::Pressed
            } else {
                ButtonEvent::Released
            },
        down_after(idle, false, readings) == (reported_events(idle, false, readings).len() % 2
            == 1),
    decreases readings.len(),
{
    if readings.len() > 0 {
        lemma_events_alternate(idle, readings.drop_last());
    }
}

/// One key with its learned idle level and its debounced state.
pub struct ButtonInput {
    idle_is_high: bool,
    is_down: bool,
}

impl ButtonInput {
    /// The idle level that the key was found at.
    pub closed spec fn idle_high(self) -> bool {
        self.idle_is_high
    }

    /// Whether the key is held down, as last confirmed.
    pub closed spec fn down(self) -> bool {
        self.is_down
    }

    /// A key at rest whose idle level is learned from `idle_samples`.
    pub fn new(idle_samples: &[bool]) -> (b: Self)
        ensures
            b.idle_high() == idle_level(idle_samples@),
            !b.down(),
    {
        ButtonInput { idle_is_high: sample_button_idle_level(idle_samples), is_down: false }
    }

    /// Whether a reading differs from the held state, so that it must be
    /// confirmed by a second reading after `DEBOUNCE_MS`.
    pub fn needs_debounce(&self, level_high: bool) -> (r: bool)
        ensures
            r == ((level_high != self.idle_high()) != self.down()),
    {
        is_button_pressed(level_high, self.idle_is_high) != self.is_down
    }

    /// Takes a reading and, where it differs from the held state, the
    /// confirming reading taken `DEBOUNCE_MS` later; reports a press or a
    /// release only when both agree on the change.
    pub fn poll(&mut self, first_high: bool, settled_high: bool) -> (e: ButtonEvent)
        ensures
            final(self).idle_high() == old(self).idle_high(),
            e == ButtonEvent::Pressed ==> !old(self).down() && final(self).down(),
            e == ButtonEvent::Released ==> old(self).down() && !final(self).down(),
            (final(self).down(), e) == poll_step(
                old(self).idle_high(),
                old(self).down(),
                first_high,
                settled_high,
            ),
            ({
                let idle = old(self).idle_high();
                let changed = (first_high != idle) != old(self).down()
                    && (settled_high != idle) != old(self).down();
                if changed {
                    &&& final(self).down() == (settled_high != idle)
                    &&& e == if final(self).down() {
                        ButtonEvent::Pressed
                    } else {
                        ButtonEvent::Released
                    }
                } else {
                    &&& final(self).down() == old(self).down()
                    &&& e == ButtonEvent::Unchanged
                }
            }),
    {
        let pressed = is_button_pressed(first_high, self.idle_is_high);
        if pressed == self.is_down {
            return ButtonEvent::Unchanged;
        }
        let stable_pressed = is_button_pressed(settled_high, self.idle_is_high);
        if stable_pressed == self.is_down {
            return ButtonEvent::Unchanged;
        }
        self.is_down = stable_pressed;
        if self.is_down {
            ButtonEvent::Pressed
        } else {
            ButtonEvent::Released
        }
    }
}

} // verus!
