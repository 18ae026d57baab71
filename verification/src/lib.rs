//! Decision logic of a Telegram bot that attaches styled URL buttons to posts.

pub mod admin;
pub mod analytics;
pub mod config;
pub mod conversation;
pub mod json;
pub mod keyboard;
pub mod laws;
pub mod session;
pub mod state;
pub mod text;
