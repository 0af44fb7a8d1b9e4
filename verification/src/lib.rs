//! Verified core of a clipboard prompt enhancer.
//!
//! A global hotkey reads the clipboard, sends the text to a local inference
//! server for rewriting and writes the answer back. This crate holds the
//! decisions of that program as functions on plain values, each with a
//! contract: the configuration store, the inference exchange, the hotkey
//! pipeline and the launch-at-login registration.

pub mod autostart;
pub mod config;
pub mod inference;
pub mod pipeline;
pub mod text;
