//! Scripting utilities with verified core logic.
pub mod archive;
pub mod cache;
pub mod env;
pub mod experimental;
pub mod fs;
pub mod http;
pub mod path;
pub mod print;
pub mod retry;
pub mod script;
pub mod sh;
pub mod text;
pub mod time;
