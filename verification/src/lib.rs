//! The verified core of a terminal process manager.
//!
//! The library holds the state and the decisions of the manager: which process
//! runs, what a key or a mouse report does, what the screen of a terminal says
//! and which outside action comes next. It performs no I/O. What has to happen
//! outside is handed out as a plain value and its outcome is handed back in.

pub mod activity;
pub mod activity_frame;
pub mod app;
pub mod clipboard;
pub mod config;
pub mod effect;
pub mod engine;
pub mod emulator;
pub mod event;
pub mod form;
pub mod generation;
pub mod geometry;
pub mod input;
pub mod laws;
pub mod ledger;
pub mod location;
pub mod message;
pub mod moment;
pub mod names;
pub mod overlay;
pub mod palette;
pub mod pane;
pub mod process;
pub mod reconcile;
pub mod selection;
pub mod session;
pub mod text;
pub mod workspace;
