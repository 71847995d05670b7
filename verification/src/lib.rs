//! The decision logic of a retry wrapper around a rate-limited command line program.

pub mod calendar;
pub mod cli;
pub mod config;
pub mod countdown;
pub mod journal;
pub mod logger;
pub mod monitor;
pub mod numeral;
pub mod patterns;
pub mod print_mode;
pub mod regexp;
pub mod report;
pub mod shell;
pub mod text;
pub mod time;
pub mod tmux;
