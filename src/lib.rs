//! Class-schedule assistant: command parsing, the per-conversation dialogue
//! state machine, and the grouping and rendering of lesson rows.

pub mod command;
pub mod config;
pub mod day;
pub mod dialogue;
pub mod laws;
pub mod lesson;
pub mod render;
pub mod schedule;
pub mod store;
pub mod text;
pub mod week;
