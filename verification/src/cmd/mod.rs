//! The bot's commands: what each answers, and how each is announced to Discord.
use vstd::prelude::*;

use crate::markup::{push, red, rosewater};

pub mod join;
pub mod play;
pub mod queue;
pub mod sing;
pub mod slash;

verus! {

/// An answer shown as an embed: its colour and its description.
pub struct Reply {
    pub color: u32,
    pub text: String,
}

/// An embed as the slash commands fill it in.
pub struct Embed {
    pub title: Option<String>,
    pub description: String,
    pub color: u32,
}

/// The value that Discord resolved for a slash command option.
pub enum OptionValue {
    Text(String),
    Other,
}

/// The kind of value a slash command option takes.
#[derive(PartialEq, Eq, Structural, Clone, Copy, Debug)]
pub enum OptionKind {
    Text,
}

/// How a slash command option is announced.
pub struct OptionSpec {
    pub name: String,
    pub description: String,
    pub kind: OptionKind,
    pub required: bool,
}

/// How a slash command is announced.
pub struct CommandSpec {
    pub name: String,
    pub description: String,
    pub options: Vec<OptionSpec>,
}

/// Turns the outcome of a request into its answer: a fulfilled request in
/// rosewater, a refused one in red, with the outcome's text as description.
pub fn reply(result: Result<String, String>) -> (r: Reply)
    ensures
        match result {
            Ok(text) => r.color == 0xF6DBD8 && r.text@ == text@,
            Err(text) => r.color == 0xE74C3C && r.text@ == text@,
        },
{
    match result {
        Ok(text) => Reply { color: rosewater(), text: push(String::new(), text.as_str()) },
        Err(text) => Reply { color: red(), text: push(String::new(), text.as_str()) },
    }
}

} // verus!
