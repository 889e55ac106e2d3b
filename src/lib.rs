//! Keystroke session aggregation: turns raw key-down events into text and
//! groups bursts of typing into one (window title, text) record per session.

pub mod keys;
pub mod resolve;
pub mod engine;
pub mod laws;
