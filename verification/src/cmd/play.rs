//! The `play` command: join the member's voice channel, then queue a song.
use vstd::prelude::*;

use crate::markup::{push, red};
use super::{CommandSpec, OptionKind, OptionSpec, OptionValue, Reply};

verus! {

/// What to do after trying to join the member's voice channel.
pub enum PlayStep {
    /// The channel was joined: go on and queue the song.
    Queue,
    /// Joining failed: answer with this, and queue nothing.
    Answer(Reply),
}

/// Decides the next step of `play` from the outcome of joining: queue the
/// song after a join, else answer the join's failure in red.
pub fn after_join(joined: Result<String, String>) -> (r: PlayStep)
    ensures
        match joined {
            Ok(_) => r is Queue,
            Err(text) => match r {
                PlayStep::Answer(reply) => reply.color == 0xE74C3C && reply.text@ == text@,
                PlayStep::Queue => false,
            },
        },
{
    match joined {
        Ok(_) => PlayStep::Queue,
        Err(text) => PlayStep::Answer(
            Reply { color: red(), text: push(String::new(), text.as_str()) },
        ),
    }
}

/// The link given to the `/play` slash command: the option's text, or an
/// empty link when the option holds no text.
pub fn url_option(options: &Vec<Option<OptionValue>>) -> (r: String)
    requires
        options.len() > 0,
        options[0] is Some,
    ensures
        match options[0] {
            Some(OptionValue::Text(t)) => r@ == t@,
            _ => r@ == Seq::<char>::empty(),
        },
{
    match &options[0] {
        Some(OptionValue::Text(t)) => push(String::new(), t.as_str()),
        _ => String::new(),
    }
}

/// How `/play` is announced: one required text option, the link.
pub fn register() -> (r: CommandSpec)
    ensures
        r.name@ == "play"@,
        r.description@ == "I will add a song from a URL to the current queue"@,
        r.options.len() == 1,
        r.options[0].name@ == "url"@,
        r.options[0].description@ == "Im going to look for something to play at that URL"@,
        r.options[0].kind == OptionKind::Text,
        r.options[0].required,
{
    let mut options = Vec::new();
    options.push(
        OptionSpec {
            name: String::from_str("url"),
            description: String::from_str("Im going to look for something to play at that URL"),
            kind: OptionKind::Text,
            required: true,
        },
    );
    CommandSpec {
        name: String::from_str("play"),
        description: String::from_str("I will add a song from a URL to the current queue"),
        options,
    }
}

} // verus!
