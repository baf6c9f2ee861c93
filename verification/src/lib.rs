//! A small always-on keyboard service: five global shortcuts (Ctrl+Alt with
//! E, A, I, O or U) each inject one accented vowel as synthetic Unicode
//! keyboard input, and a notification-area icon offers a single "Exit"
//! command through a transient context menu.
//!
//! This crate holds the verified core: the fixed binding table and its
//! lookup, a model of the exclusive hotkey registry, construction of the
//! synthetic input batch, the tray icon configuration and presence state,
//! the context-menu interaction trace, and the window-message dispatcher.
//! The operating-system calls that carry these values live outside it.

pub mod bindings;
pub mod dispatch;
pub mod inject;
pub mod menu;
pub mod registry;
pub mod tray;
pub mod wide;
