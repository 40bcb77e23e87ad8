//! Decision logic of a handheld lighting remote: analog readings are
//! classified into gestures, filtered for hold-to-repeat, fed to a small menu
//! state machine, and turned into fixed-length serial frames.

pub mod command;
pub mod controller;
pub mod gesture;
pub mod menu;
pub mod repeat;

pub use command::{boot_frame, Command};
pub use controller::Controller;
pub use gesture::{classify, Button, RawSample};
pub use menu::{decrement_menu_state, get_mask, increment_menu_state, menu_label, MenuState, MenuStateMachine};
pub use repeat::RepeatGate;
