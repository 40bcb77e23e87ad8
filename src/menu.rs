use vstd::prelude::*;
use crate::command::Command;
use crate::gesture::Button;

verus! {

/// The lamp group that the controls currently act on.
#[derive(Clone, Copy, Debug, PartialEq, Eq, Structural)]
pub enum MenuState {
    /// Every lamp.
    Main,
    /// Wall lamps, ids 0 to 3.
    Lamp1,
    /// Table lamps, ids 4 to 6.
    Lamp2,
}

pub const MASK_ALL: u16 = 0xFFFF;
pub const MASK_LAMP1: u16 = 0x000F;
pub const MASK_LAMP2: u16 = 0x0070;

/// The 16-bit lamp bitmask that a menu state addresses.
pub open spec fn mask_of(s: MenuState) -> u16 {
    match s {
        MenuState::Main => MASK_ALL,
        MenuState::Lamp1 => MASK_LAMP1,
        MenuState::Lamp2 => MASK_LAMP2,
    }
}

/// Cyclic successor: Main, Lamp1, Lamp2, Main.
pub open spec fn next_state(s: MenuState) -> MenuState {
    match s {
        MenuState::Main => MenuState::Lamp1,
        MenuState::Lamp1 => MenuState::Lamp2,
        MenuState::Lamp2 => MenuState::Main,
    }
}

/// Cyclic predecessor: Main, Lamp2, Lamp1, Main.
pub open spec fn prev_state(s: MenuState) -> MenuState {
    match s {
        MenuState::Main => MenuState::Lamp2,
        MenuState::Lamp1 => MenuState::Main,
        MenuState::Lamp2 => MenuState::Lamp1,
    }
}

/// Selects the next lamp group, cyclically.
pub fn increment_menu_state(menu_state: &mut MenuState)
    ensures
        *final(menu_state) == next_state(*old(menu_state)),
{
    match *menu_state {
        MenuState::Main => *menu_state = MenuState::Lamp1,
        MenuState::Lamp1 => *menu_state = MenuState::Lamp2,
        MenuState::Lamp2 => *menu_state = MenuState::Main,
    }
}

/// Selects the previous lamp group, cyclically.
pub fn decrement_menu_state(menu_state: &mut MenuState)
    ensures
        *final(menu_state) == prev_state(*old(menu_state)),
{
    match *menu_state {
        MenuState::Main => *menu_state = MenuState::Lamp2,
        MenuState::Lamp2 => *menu_state = MenuState::Lamp1,
        MenuState::Lamp1 => *menu_state = MenuState::Main,
    }
}

/// The lamp bitmask of a menu state.
pub fn get_mask(menu_state: &MenuState) -> (r: u16)
    ensures
        r == mask_of(*menu_state),
{
    match menu_state {
        MenuState::Main => MASK_ALL,
        MenuState::Lamp1 => MASK_LAMP1,
        MenuState::Lamp2 => MASK_LAMP2,
    }
}

/// The change carried by one dispatched slide or rotate gesture: a full
/// range of 127 per second spread over the 25 dispatches per second of a
/// held control, rounded down. Non-zero.
pub const CHANGE_PER_INTERVAL: i8 = 5;
/// Brightness change that turns a lamp group fully off.
pub const FULL_OFF: i8 = -127;
/// Milliseconds without a dispatched gesture after which the menu returns
/// to `Main`.
pub const MENU_TIMEOUT_MS: u64 = 5000;

/// The menu state and the time of the last dispatched gesture.
#[derive(Clone, Copy, Debug, PartialEq, Eq, Structural)]
pub struct MenuStateMachine {
    pub state: MenuState,
    /// Clock reading, in milliseconds, of the last dispatched gesture.
    pub last_activity: u64,
}

/// A command for the lamps of state `s`.
pub open spec fn delta_command(s: MenuState, brightness: i8, gamma: i8, position: i8) -> Command {
    Command { mask: mask_of(s), brightness, gamma, position }
}

/// The command, if any, that a dispatched gesture emits in state `s`.
pub open spec fn command_for(s: MenuState, b: Button) -> Option<Command> {
    match b {
        Button::RotateRight => Some(delta_command(s, CHANGE_PER_INTERVAL, 0, 0)),
        Button::RotateLeft => Some(delta_command(s, (-CHANGE_PER_INTERVAL) as i8, 0, 0)),
        Button::SlideUp => Some(delta_command(s, 0, CHANGE_PER_INTERVAL, 0)),
        Button::SlideDown => Some(delta_command(s, 0, (-CHANGE_PER_INTERVAL) as i8, 0)),
        Button::SlideLeft => Some(delta_command(s, 0, 0, (-CHANGE_PER_INTERVAL) as i8)),
        Button::SlideRight => Some(delta_command(s, 0, 0, CHANGE_PER_INTERVAL)),
        Button::PressTop => if s == MenuState::Lamp1 {
            Some(delta_command(s, FULL_OFF, 0, 0))
        } else {
            None
        },
        Button::PressBottom => if s == MenuState::Lamp2 {
            Some(delta_command(s, FULL_OFF, 0, 0))
        } else {
            None
        },
        _ => None,
    }
}

/// The menu state after a dispatched gesture in state `s`.
pub open spec fn state_after(s: MenuState, b: Button) -> MenuState {
    match b {
        Button::PressTop => MenuState::Lamp1,
        Button::PressBottom => MenuState::Lamp2,
        Button::PressLeft => next_state(s),
        Button::PressRight => prev_state(s),
        _ => s,
    }
}

/// Whether the menu has been idle long enough at `now` to return to `Main`.
pub open spec fn timed_out(m: MenuStateMachine, now: u64) -> bool {
    now - m.last_activity >= MENU_TIMEOUT_MS
}

impl MenuStateMachine {
    /// The menu at start-up: `Main`, with activity at time zero.
    pub fn new() -> (r: MenuStateMachine)
        ensures
            r.state == MenuState::Main,
            r.last_activity == 0,
    {
        MenuStateMachine { state: MenuState::Main, last_activity: 0 }
    }

    /// Returns to `Main` once no gesture has been dispatched for the timeout;
    /// the time of the last activity is kept.
    pub fn check_timeout(&mut self, now: u64)
        requires
            old(self).last_activity <= now,
        ensures
            final(self).last_activity == old(self).last_activity,
            final(self).state == (if timed_out(*old(self), now) {
                MenuState::Main
            } else {
                old(self).state
            }),
    {
        if now - self.last_activity >= MENU_TIMEOUT_MS {
            self.state = MenuState::Main;
        }
    }

    /// Handles one dispatched gesture at `now`: records the activity, moves
    /// to the next state and returns the command to send, if any.
    pub fn handle(&mut self, button: Button, now: u64) -> (r: Option<Command>)
        requires
            button != Button::Idle,
        ensures
            r == command_for(old(self).state, button),
            final(self).state == state_after(old(self).state, button),
            final(self).last_activity == now,
    {
        self.last_activity = now;
        match button {
            Button::RotateRight => Some(self.command(CHANGE_PER_INTERVAL, 0, 0)),
            Button::RotateLeft => Some(self.command(-CHANGE_PER_INTERVAL, 0, 0)),
            Button::SlideUp => Some(self.command(0, CHANGE_PER_INTERVAL, 0)),
            Button::SlideDown => Some(self.command(0, -CHANGE_PER_INTERVAL, 0)),
            Button::SlideLeft => Some(self.command(0, 0, -CHANGE_PER_INTERVAL)),
            Button::SlideRight => Some(self.command(0, 0, CHANGE_PER_INTERVAL)),
            Button::PressTop => {
                if self.state == MenuState::Lamp1 {
                    Some(self.command(FULL_OFF, 0, 0))
                } else {
                    self.state = MenuState::Lamp1;
                    None
                }
            },
            Button::PressBottom => {
                if self.state == MenuState::Lamp2 {
                    Some(self.command(FULL_OFF, 0, 0))
                } else {
                    self.state = MenuState::Lamp2;
                    None
                }
            },
            Button::PressLeft => {
                increment_menu_state(&mut self.state);
                None
            },
            Button::PressRight => {
                decrement_menu_state(&mut self.state);
                None
            },
            Button::Idle => {
                // ruled out by `requires`: `Idle` is never dispatched
                proof {
                    assert(false);
                }
                None
            },
        }
    }

    fn command(&self, brightness: i8, gamma: i8, position: i8) -> (r: Command)
        ensures
            r == delta_command(self.state, brightness, gamma, position),
    {
        Command { mask: get_mask(&self.state), brightness, gamma, position }
    }
}

/// The text shown on the status display for a menu state.
pub open spec fn label_of(s: MenuState) -> Seq<char> {
    match s {
        MenuState::Main => "ALL"@,
        MenuState::Lamp1 => "1"@,
        MenuState::Lamp2 => "2"@,
    }
}

/// The text to show on the status display for a menu state.
pub fn menu_label(menu_state: MenuState) -> (r: &'static str)
    ensures
        r@ == label_of(menu_state),
{
    match menu_state {
        MenuState::Main => "ALL",
        MenuState::Lamp1 => "1",
        MenuState::Lamp2 => "2",
    }
}

/// The two lamp groups address disjoint lamps, and every lamp of either
/// group is addressed by `Main`.
pub proof fn lemma_masks_disjoint()
    ensures
        mask_of(MenuState::Main) == 0xFFFFu16,
        mask_of(MenuState::Lamp1) == 0x000Fu16,
        mask_of(MenuState::Lamp2) == 0x0070u16,
        mask_of(MenuState::Lamp1) & mask_of(MenuState::Lamp2) == 0,
        mask_of(MenuState::Lamp1) & mask_of(MenuState::Main) == mask_of(MenuState::Lamp1),
        mask_of(MenuState::Lamp2) & mask_of(MenuState::Main) == mask_of(MenuState::Lamp2),
{
    assert(0x000Fu16 & 0x0070u16 == 0) by (bit_vector);
    assert(0x000Fu16 & 0xFFFFu16 == 0x000Fu16) by (bit_vector);
    assert(0x0070u16 & 0xFFFFu16 == 0x0070u16) by (bit_vector);
}

/// Stepping forward three times through the menu returns to the start, and
/// a step back undoes a step forward (and the other way round).
pub proof fn lemma_menu_cycle(s: MenuState)
    ensures
        next_state(next_state(next_state(s))) == s,
        prev_state(next_state(s)) == s,
        next_state(prev_state(s)) == s,
        state_after(state_after(state_after(s, Button::PressLeft), Button::PressLeft), Button::PressLeft) == s,
        state_after(state_after(s, Button::PressLeft), Button::PressRight) == s,
        state_after(state_after(s, Button::PressRight), Button::PressLeft) == s,
{
}

/// A selection gesture emits no command, and changes the state alone.
pub proof fn lemma_selection_emits_nothing(s: MenuState, b: Button)
    requires
        b == Button::PressLeft || b == Button::PressRight || (b == Button::PressTop && s != MenuState::Lamp1)
            || (b == Button::PressBottom && s != MenuState::Lamp2),
    ensures
        command_for(s, b) is None,
{
}

/// Every emitted command addresses the lamps of the current state.
pub proof fn lemma_command_uses_state_mask(s: MenuState, b: Button)
    requires
        command_for(s, b) is Some,
    ensures
        command_for(s, b)->0.mask == mask_of(s),
{
}

} // verus!
