//! Session controller of a terminal client for a remote torrent daemon.
//!
//! The crate holds the parts of the client that decide: the list view model
//! (selection, scroll window, filter), the modal session state machine, the
//! routing of merged input events, and the values the screen shows. Network
//! calls, persisted settings and drawing are done by the program around it,
//! which performs the [`app::Action`]s the state machine asks for and hands
//! back what came of them.

pub mod api;
pub mod app;
pub mod config;
pub mod endpoint;
pub mod event;
pub mod list;
pub mod text;
pub mod ui;
pub mod utils;
pub mod window;
