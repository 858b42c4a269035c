pub mod command;
pub mod config;
pub mod git;
pub mod text;
pub mod classify;
pub mod check;
