//! Back-and-forth focus switching for the i3 window manager.
//!
//! The library tracks the two most recently focused windows and decides, on
//! every observed focus change, whether the user moved to a fresh window or
//! toggled back to the previous one. A window is identified by an unsigned
//! integer handle; `0` is the reserved "no window" sentinel.

pub mod command;
pub mod events;
pub mod state;
pub mod tree;

pub use command::focus_command;
pub use events::Directive;
pub use events::SessionEvent;
pub use events::decide;
pub use state::Controller;
pub use tree::LayoutNode;
