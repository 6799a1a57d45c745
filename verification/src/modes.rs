//! The mode selector and the decision of what each gesture does.

use vstd::prelude::*;

use crate::keymap::{key_map, map_action, KeyAction, Mode, PhysicalKey, Stroke};

verus! {

/// Tokens that the selector records beyond this many are dropped.
pub const SELECTOR_CAPACITY: usize = 8;

/// Length of each half of an LED blink.
pub const BLINK_MS: u32 = 100;

/// A key pressed while the selector is open.
#[derive(Clone, Copy, Debug)]
pub enum SelectorToken {
    K1,
    K3,
}

pub fn selector_token_eq(lhs: SelectorToken, rhs: SelectorToken) -> (r: bool)
    ensures
        r == (lhs == rhs),
{
    match (lhs, rhs) {
        (SelectorToken::K1, SelectorToken::K1) | (SelectorToken::K3, SelectorToken::K3) => true,
        _ => false,
    }
}

/// The mode that a token sequence selects: `K1` Number, `K3` Navigation,
/// `K1 K3` Media, anything else Vim.
pub open spec fn selected_mode(tokens: Seq<SelectorToken>) -> Mode {
    if tokens.len() == 1 && tokens[0] == SelectorToken::K1 {
        Mode::Number
    } else if tokens.len() == 1 && tokens[0] == SelectorToken::K3 {
        Mode::Navigation
    } else if tokens.len() == 2 && tokens[0] == SelectorToken::K1 && tokens[1] == SelectorToken::K3 {
        Mode::Media
    } else {
        Mode::Vim
    }
}

/// The recorded tokens after `t` is recorded: past the capacity it is
/// dropped.
pub open spec fn push_token(tokens: Seq<SelectorToken>, t: SelectorToken) -> Seq<SelectorToken> {
    if tokens.len() < SELECTOR_CAPACITY as nat {
        tokens.push(t)
    } else {
        tokens
    }
}

/// Records the tokens of `ts` in order.
pub open spec fn push_tokens(tokens: Seq<SelectorToken>, ts: Seq<SelectorToken>) -> Seq<
    SelectorToken,
>
    decreases ts.len(),
{
    if ts.len() == 0 {
        tokens
    } else {
        push_token(push_tokens(tokens, ts.drop_last()), ts.last())
    }
}

/// Collects the keys pressed while the selector is open.
pub struct ModeSelector {
    active: bool,
    len: usize,
    tokens: [SelectorToken; 8],
}

impl ModeSelector {
    #[verifier::type_invariant]
    spec fn inv(self) -> bool {
        self.len <= SELECTOR_CAPACITY
    }

    /// Whether the selector is open.
    pub closed spec fn is_active(self) -> bool {
        self.active
    }

    /// The tokens recorded since the selector was opened.
    pub closed spec fn recorded(self) -> Seq<SelectorToken> {
        self.tokens@.take(self.len as int)
    }

    pub fn new() -> (s: Self)
        ensures
            !s.is_active(),
            s.recorded() == Seq::<SelectorToken>::empty(),
    {
        ModeSelector { active: false, len: 0, tokens: [SelectorToken::K1;8] }
    }

    /// Opens the selector with no token recorded.
    pub fn enter(&mut self)
        ensures
            final(self).is_active(),
            final(self).recorded() == Seq::<SelectorToken>::empty(),
    {
        proof {
            use_type_invariant(&*self);
        }
        self.active = true;
        self.len = 0;
    }

    /// Records a token, unless `SELECTOR_CAPACITY` tokens are recorded.
    pub fn push(&mut self, token: SelectorToken)
        ensures
            final(self).is_active() == old(self).is_active(),
            final(self).recorded() == push_token(old(self).recorded(), token),
    {
        proof {
            use_type_invariant(&*self);
        }
        if self.len < self.tokens.len() {
            self.tokens[self.len] = token;
            self.len += 1;
            assert(self.tokens@.take(self.len as int) =~= push_token(old(self).recorded(), token));
        }
    }

    /// Closes the selector and returns the mode that the recorded tokens
    /// select.
    pub fn confirm(&mut self) -> (mode: Mode)
        ensures
            mode == selected_mode(old(self).recorded()),
            (mode == Mode::Number) == (old(self).recorded() == seq![SelectorToken::K1]),
            (mode == Mode::Navigation) == (old(self).recorded() == seq![SelectorToken::K3]),
            (mode == Mode::Media) == (old(self).recorded() == seq![
                SelectorToken::K1,
                SelectorToken::K3,
            ]),
            !final(self).is_active(),
            final(self).recorded() == Seq::<SelectorToken>::empty(),
    {
        proof {
            use_type_invariant(&*self);
        }
        self.active = false;
        let number = [SelectorToken::K1];
        let navigation = [SelectorToken::K3];
        let media = [SelectorToken::K1, SelectorToken::K3];
        assert(number@ =~= seq![SelectorToken::K1]);
        assert(navigation@ =~= seq![SelectorToken::K3]);
        assert(media@ =~= seq![SelectorToken::K1, SelectorToken::K3]);
        proof {
            let r = self.recorded();
            if r.len() == 1 && r[0] == SelectorToken::K1 {
                assert(r =~= number@);
            }
            if r.len() == 1 && r[0] == SelectorToken::K3 {
                assert(r =~= navigation@);
            }
            if r.len() == 2 && r[0] == SelectorToken::K1 && r[1] == SelectorToken::K3 {
                assert(r =~= media@);
            }
        }
        let mode = if self.matches(&number) {
            Mode::Number
        } else if self.matches(&navigation) {
            Mode::Navigation
        } else if self.matches(&media) {
            Mode::Media
        } else {
            Mode::Vim
        };
        self.len = 0;
        proof {
            lemma_selected_mode_sequences(old(self).recorded());
        }
        mode
    }

    /// Whether the recorded tokens are exactly `expected`.
    pub fn matches(&self, expected: &[SelectorToken]) -> (r: bool)
        ensures
            r == (self.recorded() == expected@),
    {
        proof {
            use_type_invariant(self);
        }
        if self.len != expected.len() {
            return false;
        }
        let n = expected.len();
        let mut index: usize = 0;
        while index < n
            invariant
                n == expected@.len(),
                n == self.len,
                self.len <= SELECTOR_CAPACITY,
                index <= n,
                forall|j: int| 0 <= j < index ==> self.tokens@[j] == expected@[j],
            decreases n - index,
        {
            if !selector_token_eq(self.tokens[index], expected[index]) {
                assert(self.recorded()[index as int] != expected@[index as int]);
                return false;
            }
            index += 1;
        }
        assert(self.recorded() =~= expected@);
        true
    }
}


/// What the firmware does with the outside world after a gesture.
#[derive(Clone, Copy, Debug, PartialEq, Eq, Structural)]
pub enum Effect {
    Nothing,
    /// The selector opened: the status LED is driven low.
    SelectorOpened,
    /// A mode was chosen: the LED blinks `blink_count` of it times.
    ModeChosen(Mode),
    /// This stroke goes to the host.
    Send(Stroke),
}

/// LED blinks that confirm a mode: one for Vim, two for Number or
/// Navigation, three for Media.
pub open spec fn mode_blinks(mode: Mode) -> u8 {
    match mode {
        Mode::Vim => 1,
        Mode::Number | Mode::Navigation => 2,
        Mode::Media => 3,
    }
}

pub fn blink_count(mode: Mode) -> (n: u8)
    ensures
        n == mode_blinks(mode),
{
    match mode {
        Mode::Vim => 1,
        Mode::Number | Mode::Navigation => 2,
        Mode::Media => 3,
    }
}

pub open spec fn same_selector(a: ModeSelector, b: ModeSelector) -> bool {
    a.is_active() == b.is_active() && a.recorded() == b.recorded()
}

/// Decides what a gesture does: it opens the selector, feeds or confirms an
/// open selector, or is looked up in the key map of the current mode.
pub fn handle_action(action: KeyAction, selector: &mut ModeSelector, mode: &mut Mode) -> (effect:
    Effect)
    ensures
        action == KeyAction::Idle ==> {
            &&& effect == Effect::Nothing
            &&& same_selector(*final(selector), *old(selector))
            &&& *final(mode) == *old(mode)
        },
        action == KeyAction::SelectorEntry ==> {
            &&& effect == Effect::SelectorOpened
            &&& final(selector).is_active()
            &&& final(selector).recorded() == Seq::<SelectorToken>::empty()
            &&& *final(mode) == *old(mode)
        },
        action != KeyAction::Idle && action != KeyAction::SelectorEntry && old(
            selector,
        ).is_active() ==> match action {
            KeyAction::Short(PhysicalKey::K1) => {
                &&& effect == Effect::Nothing
                &&& final(selector).is_active()
                &&& final(selector).recorded() == push_token(
                    old(selector).recorded(),
                    SelectorToken::K1,
                )
                &&& *final(mode) == *old(mode)
            },
            KeyAction::Short(PhysicalKey::K3) => {
                &&& effect == Effect::Nothing
                &&& final(selector).is_active()
                &&& final(selector).recorded() == push_token(
                    old(selector).recorded(),
                    SelectorToken::K3,
                )
                &&& *final(mode) == *old(mode)
            },
            KeyAction::Short(PhysicalKey::K2) => {
                &&& *final(mode) == selected_mode(old(selector).recorded())
                &&& effect == Effect::ModeChosen(*final(mode))
                &&& !final(selector).is_active()
                &&& final(selector).recorded() == Seq::<SelectorToken>::empty()
            },
            _ => {
                &&& effect == Effect::Nothing
                &&& same_selector(*final(selector), *old(selector))
                &&& *final(mode) == *old(mode)
            },
        },
        action != KeyAction::Idle && action != KeyAction::SelectorEntry && !old(
            selector,
        ).is_active() ==> {
            &&& effect == match key_map(*old(mode), action) {
                Some(stroke) => Effect::Send(stroke),
                None => Effect::Nothing,
            }
            &&& same_selector(*final(selector), *old(selector))
            &&& *final(mode) == *old(mode)
        },
        old(selector).is_active() ==> !(effect is Send),
{
    if let KeyAction::Idle = action {
        return Effect::Nothing;
    }
    if let KeyAction::SelectorEntry = action {
        selector.enter();
        return Effect::SelectorOpened;
    }
    if selector.active {
        match action {
            KeyAction::Short(PhysicalKey::K1) => {
                selector.push(SelectorToken::K1);
                Effect::Nothing
            },
            KeyAction::Short(PhysicalKey::K3) => {
                selector.push(SelectorToken::K3);
                Effect::Nothing
            },
            KeyAction::Short(PhysicalKey::K2) => {
                *mode = selector.confirm();
                Effect::ModeChosen(*mode)
            },
            _ => Effect::Nothing,
        }
    } else {
        match map_action(*mode, action) {
            Some(stroke) => Effect::Send(stroke),
            None => Effect::Nothing,
        }
    }
}

proof fn lemma_push_tokens_take(ts: Seq<SelectorToken>)
    ensures
        push_tokens(Seq::empty(), ts) == ts.take(
            if ts.len() < SELECTOR_CAPACITY as nat {
                ts.len() as int
            } else {
                SELECTOR_CAPACITY as int
            },
        ),
    decreases ts.len(),
{
    if ts.len() > 0 {
        lemma_push_tokens_take(ts.drop_last());
        let prev = ts.drop_last();
        if prev.len() < SELECTOR_CAPACITY as nat {
            assert(prev.take(prev.len() as int).push(ts.last()) =~= ts.take(ts.len() as int));
        } else {
            assert(prev.take(SELECTOR_CAPACITY as int) =~= ts.take(SELECTOR_CAPACITY as int));
        }
    } else {
        assert(ts.take(0) =~= Seq::<SelectorToken>::empty());
    }
}

/// Each mode is selected by exactly one token sequence: Number by `K1` alone,
/// Navigation by `K3` alone, Media by `K1` then `K3`; every other sequence,
/// of any length, selects Vim.
pub proof fn lemma_selected_mode_sequences(tokens: Seq<SelectorToken>)
    ensures
        (selected_mode(tokens) == Mode::Number) == (tokens == seq![SelectorToken::K1]),
        (selected_mode(tokens) == Mode::Navigation) == (tokens == seq![SelectorToken::K3]),
        (selected_mode(tokens) == Mode::Media) == (tokens == seq![
            SelectorToken::K1,
            SelectorToken::K3,
        ]),
        (selected_mode(tokens) == Mode::Vim) == (tokens != seq![SelectorToken::K1] && tokens
            != seq![SelectorToken::K3] && tokens != seq![SelectorToken::K1, SelectorToken::K3]),
{
    let number = seq![SelectorToken::K1];
    let navigation = seq![SelectorToken::K3];
    let media = seq![SelectorToken::K1, SelectorToken::K3];
    if tokens.len() == 1 && tokens[0] == SelectorToken::K1 {
        assert(tokens =~= number);
    }
    if tokens.len() == 1 && tokens[0] == SelectorToken::K3 {
        assert(tokens =~= navigation);
    }
    if tokens.len() == 2 && tokens[0] == SelectorToken::K1 && tokens[1] == SelectorToken::K3 {
        assert(tokens =~= media);
    }
    if tokens == number {
        assert(tokens.len() == 1 && tokens[0] == SelectorToken::K1);
    }
    if tokens == navigation {
        assert(tokens.len() == 1 && tokens[0] == SelectorToken::K3);
    }
    if tokens == media {
        assert(tokens.len() == 2 && tokens[0] == SelectorToken::K1 && tokens[1] == SelectorToken::K3);
    }
}

/// Whatever keys are pressed while the selector is open, confirming selects
/// the mode of the whole sequence: `K1` Number, `K3` Navigation, `K1 K3`
/// Media, any other sequence Vim; dropping tokens past the capacity changes
/// nothing.
pub proof fn lemma_selection_by_sequence(ts: Seq<SelectorToken>)
    ensures
        selected_mode(push_tokens(Seq::empty(), ts)) == selected_mode(ts),
{
    lemma_push_tokens_take(ts);
    let kept = push_tokens(Seq::<SelectorToken>::empty(), ts);
    if ts.len() <= SELECTOR_CAPACITY as nat {
        assert(kept =~= ts);
    } else {
        assert(kept.len() == SELECTOR_CAPACITY as nat);
    }
}

} // verus!
