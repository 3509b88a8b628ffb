//! The decision core of a desktop shell that lives in the system tray.
//!
//! The host runtime owns the event loop, the main window and the tray icon. It
//! hands each event to one of the handlers here, and carries out the actions
//! that the handler answers with. Nothing in this crate touches a window: the
//! handlers are functions from an event to a list of [`shell::Action`]s, and
//! [`shell::Shell`] is a headless host on which their effect is stated and
//! proved.

pub mod commands;
pub mod host;
pub mod laws;
pub mod setup;
pub mod shell;
pub mod tray;
