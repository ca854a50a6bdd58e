//! The slash-command forms of the commands.
pub mod join;
pub mod play;
pub mod sing;
