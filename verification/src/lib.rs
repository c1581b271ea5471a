//! A video project model: curves, effects, content, a tree of videos and the
//! project file format that describes them.

pub mod strings;
pub mod numbers;
pub mod paths;
pub mod external_program;
pub mod curve;
pub mod effect;
pub mod types;
pub mod content;
pub mod video;
pub mod useful;
pub mod tree_edit;
pub mod project;
pub mod cli;
pub mod interactive;
pub mod assets;
pub mod draw_mode;
pub mod quick_commands;
pub mod quick_commands_worker;
pub mod image_buffer;
pub mod image_file;
pub mod files;
