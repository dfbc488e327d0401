//! Decision logic of a desktop EC2 + SSM instance explorer.

pub mod aws_cli;
pub mod connect;
pub mod controls;
pub mod error;
pub mod events;
pub mod inventory;
pub mod listing;
pub mod log;
pub mod models;
pub mod panels;
pub mod profile;
pub mod saved;
pub mod screen;
pub mod search;
pub mod seqs;
pub mod sessions;
pub mod state;
pub mod terminal;
pub mod text;
