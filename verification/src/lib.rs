//! Verified core of the sofka terminal UI: text helpers, escape-sequence
//! repair for split terminal reads, desktop-notification framing, and the
//! navigation state of the resource browser.

pub mod config;
pub mod text;
pub mod altscroll;
pub mod keyset;
pub mod app;
