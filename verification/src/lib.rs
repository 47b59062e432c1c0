//! A hotkey engine for a held-modifier window manager: a rule table mapping
//! modifier+key combinations to actions, a key-event state machine deciding
//! which events to suppress, and a directional window selector that picks the
//! geometrically best window in a compass direction.

pub mod config;
pub mod daemon;
pub mod hotkey;
pub mod ime;
pub mod keys;
pub mod launch;
pub mod state;
pub mod text;
pub mod windows_ops;
