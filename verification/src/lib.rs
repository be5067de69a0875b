//! Reconciles two views of the same game controllers into one state table.
//!
//! The structured backend delivers connect, disconnect, button and axis
//! events; the raw backend lists input device nodes and reads their reports.
//! This library holds the decisions: how an event changes the state table and
//! what is published for it, which device counts as a gamepad, what a scan of
//! the device directory keeps, and how the diagnostic reports are put
//! together. The caller supplies what was observed and carries out what is
//! returned.

pub mod classifier;
pub mod codes;
pub mod commands;
pub mod diagnostics;
pub mod evdev_gamepad;
pub mod gamepad;
pub mod names;
pub mod order;
pub mod text;
