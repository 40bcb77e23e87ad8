use vstd::prelude::*;
use crate::gesture::Button;

verus! {

/// How often a held gesture repeats, in hertz.
pub const BUTTON_HOLD_FREQUENCY: u64 = 25;
/// Milliseconds between two dispatches of a held gesture.
pub const HOLD_INTERVAL_MS: u64 = 1000 / BUTTON_HOLD_FREQUENCY;

/// Remembers the last dispatched gesture and when it was dispatched, so that
/// a held gesture fires once and then repeats at a fixed interval.
#[derive(Clone, Copy, Debug, PartialEq, Eq, Structural)]
pub struct RepeatGate {
    pub last_button: Button,
    /// Clock reading, in milliseconds, of the last dispatch.
    pub last_fire: u64,
}

/// Whether `button`, seen at `now`, is dispatched from repeat state `g`.
pub open spec fn dispatches(g: RepeatGate, button: Button, now: u64) -> bool {
    button != Button::Idle && (button != g.last_button || now - g.last_fire >= HOLD_INTERVAL_MS)
}

impl RepeatGate {
    /// The repeat state before any dispatch.
    pub fn new() -> (r: RepeatGate)
        ensures
            r.last_button == Button::Idle,
            r.last_fire == 0,
    {
        RepeatGate { last_button: Button::Idle, last_fire: 0 }
    }

    /// Decides whether `button`, seen at `now`, is dispatched; on a dispatch
    /// the button and the time are remembered.
    pub fn should_dispatch(&mut self, button: Button, now: u64) -> (r: bool)
        requires
            old(self).last_fire <= now,
        ensures
            r == dispatches(*old(self), button, now),
            r ==> *final(self) == (RepeatGate { last_button: button, last_fire: now }),
            !r ==> *final(self) == *old(self),
    {
        if button != Button::Idle && (button != self.last_button || now - self.last_fire >= HOLD_INTERVAL_MS) {
            self.last_button = button;
            self.last_fire = now;
            true
        } else {
            false
        }
    }
}

/// A gesture dispatched at `t0` and still held is suppressed until the hold
/// interval has passed, and dispatched again once it has.
pub proof fn lemma_hold_repeat(button: Button, t0: u64, now: u64)
    requires
        button != Button::Idle,
        t0 <= now,
    ensures
        dispatches(RepeatGate { last_button: button, last_fire: t0 }, button, now)
            <==> now >= t0 + HOLD_INTERVAL_MS,
{
}

/// A gesture other than the last dispatched one is dispatched at once.
pub proof fn lemma_new_button_fires(g: RepeatGate, button: Button, now: u64)
    requires
        button != Button::Idle,
        button != g.last_button,
    ensures
        dispatches(g, button, now),
{
}

/// No reading without a gesture is ever dispatched.
pub proof fn lemma_idle_never_fires(g: RepeatGate, now: u64)
    ensures
        !dispatches(g, Button::Idle, now),
{
}

} // verus!
