//! The project file: its format, how it is read, and what can go wrong.

pub mod parser_general;
pub mod parser_v0;
pub mod file_handler;
