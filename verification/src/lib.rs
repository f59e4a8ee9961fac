//! Tray controller for the Ad4min desktop shell.
//!
//! The crate decides what the tray shows and what a click on it leads to.
//! It never touches a window itself: the host hands in what happened and
//! carries out the actions that come back.

pub mod action;
pub mod handler;
pub mod menu;
pub mod session;
