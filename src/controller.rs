use vstd::prelude::*;
use crate::command::Command;
use crate::gesture::{classify, gesture_of, Button, RawSample};
use crate::menu::{command_for, state_after, timed_out, MenuState, MenuStateMachine, MENU_TIMEOUT_MS};
use crate::repeat::{dispatches, RepeatGate};

verus! {

/// Everything the control loop keeps between two passes.
#[derive(Clone, Copy, Debug, PartialEq, Eq, Structural)]
pub struct Controller {
    pub gate: RepeatGate,
    pub menu: MenuStateMachine,
}

/// No time kept by the controller lies after `now`.
pub open spec fn accepts_time(c: Controller, now: u64) -> bool {
    c.gate.last_fire <= now && c.menu.last_activity <= now
}

/// The menu after the timeout check at `now`.
pub open spec fn menu_after_timeout(m: MenuStateMachine, now: u64) -> MenuStateMachine {
    if timed_out(m, now) {
        MenuStateMachine { state: MenuState::Main, ..m }
    } else {
        m
    }
}

/// The controller after one pass on sample `s` at `now`.
pub open spec fn controller_after(c: Controller, s: RawSample, now: u64) -> Controller {
    let m = menu_after_timeout(c.menu, now);
    let b = gesture_of(s);
    if dispatches(c.gate, b, now) {
        Controller {
            gate: RepeatGate { last_button: b, last_fire: now },
            menu: MenuStateMachine { state: state_after(m.state, b), last_activity: now },
        }
    } else {
        Controller { gate: c.gate, menu: m }
    }
}

/// The command emitted by one pass on sample `s` at `now`, if any.
pub open spec fn output_of(c: Controller, s: RawSample, now: u64) -> Option<Command> {
    let m = menu_after_timeout(c.menu, now);
    let b = gesture_of(s);
    if dispatches(c.gate, b, now) {
        command_for(m.state, b)
    } else {
        None
    }
}

impl Controller {
    /// The controller at start-up.
    pub fn new() -> (r: Controller)
        ensures
            r.gate.last_button == Button::Idle,
            r.gate.last_fire == 0,
            r.menu.state == MenuState::Main,
            r.menu.last_activity == 0,
    {
        Controller { gate: RepeatGate::new(), menu: MenuStateMachine::new() }
    }

    /// One pass of the control loop: applies the menu timeout, classifies the
    /// sample, asks the repeat rule, and hands a dispatched gesture to
    /// the menu. Returns the command to send, if any.
    pub fn step(&mut self, sample: &RawSample, now: u64) -> (r: Option<Command>)
        requires
            accepts_time(*old(self), now),
        ensures
            *final(self) == controller_after(*old(self), *sample, now),
            r == output_of(*old(self), *sample, now),
            accepts_time(*final(self), now),
    {
        self.menu.check_timeout(now);
        let button = classify(sample);
        if self.gate.should_dispatch(button, now) {
            self.menu.handle(button, now)
        } else {
            None
        }
    }
}

/// With no gesture dispatched for the timeout, a pass returns the menu to
/// `Main` and emits no command.
pub proof fn lemma_timeout_to_main(c: Controller, s: RawSample, now: u64)
    requires
        accepts_time(c, now),
        now >= c.menu.last_activity + MENU_TIMEOUT_MS,
        !dispatches(c.gate, gesture_of(s), now),
    ensures
        controller_after(c, s, now).menu.state == MenuState::Main,
        output_of(c, s, now) is None,
{
}

/// Before the timeout, a pass without a dispatched gesture changes nothing.
pub proof fn lemma_quiet_pass_keeps_state(c: Controller, s: RawSample, now: u64)
    requires
        accepts_time(c, now),
        now < c.menu.last_activity + MENU_TIMEOUT_MS,
        !dispatches(c.gate, gesture_of(s), now),
    ensures
        controller_after(c, s, now) == c,
        output_of(c, s, now) is None,
{
}

} // verus!
