//! Zone sequencer and indexer logic for the SQLite zone demo.

pub mod args;
pub mod config;
pub mod error;
pub mod logging;
pub mod screen;
pub mod sequencer;
pub mod state;
pub mod text;
pub mod tui;
