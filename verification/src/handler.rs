//! The gateway events the bot reacts to, once their I/O is stripped away.
use vstd::prelude::*;

use crate::cmd::{CommandSpec, Embed, OptionKind, OptionValue};
use crate::cmd::sing::sing_embed_text;
use crate::markup::{italic_safe_text, red};

verus! {

/// The title of the answer to an unknown slash command.
pub open spec fn unknown_command_title() -> Seq<char> {
    "Ups..."@
}

/// The description of the answer to an unknown slash command.
pub open spec fn unknown_command_text() -> Seq<char> {
    "I don't know that slash command... How did you even sent that to me?"@
}

/// The embed that answers a slash command named `command` with the resolved
/// `options`: `/sing` is sung, any other name gets the "Ups..." embed in red.
pub fn interaction_embed(command: &str, options: &Vec<Option<OptionValue>>) -> (r: Embed)
    requires
        command@ == "sing"@ ==> options.len() > 0 && options[0] is Some,
    ensures
        command@ == "sing"@ ==> r.title is None && r.color == 0xF6DBD8 && r.description@
            == sing_embed_text(options[0]),
        command@ == "sing"@ ==> (options[0] matches Some(OptionValue::Text(t)) ==> r.description@
            == seq!['_'] + italic_safe_text(t@) + seq!['_']),
        command@ == "sing"@ ==> (options[0] matches Some(OptionValue::Other) ==> r.description@
            == seq!['_'] + italic_safe_text("Oh no... i cant sing that."@) + seq!['_']),
        command@ != "sing"@ ==> r.title is Some && r.title->Some_0@ == unknown_command_title()
            && r.description@ == unknown_command_text() && r.color == 0xE74C3C,
{
    let name = String::from_str(command);
    let sing = String::from_str("sing");
    if name == sing {
        crate::cmd::slash::sing::run(options)
    } else {
        Embed {
            title: Some(String::from_str("Ups...")),
            description: String::from_str(
                "I don't know that slash command... How did you even sent that to me?",
            ),
            color: red(),
        }
    }
}

/// The slash commands announced to the guild when the bot is ready: `/sing`.
pub fn guild_commands() -> (r: Vec<CommandSpec>)
    ensures
        r.len() == 1,
        r[0].name@ == "sing"@,
        r[0].description@ == "I will sing anything you say"@,
        r[0].options.len() == 1,
        r[0].options[0].name@ == "text"@,
        r[0].options[0].description@ == "This is what i am gonna sing"@,
        r[0].options[0].kind == OptionKind::Text,
        r[0].options[0].required,
{
    let mut commands = Vec::new();
    commands.push(crate::cmd::slash::sing::register());
    commands
}

} // verus!
