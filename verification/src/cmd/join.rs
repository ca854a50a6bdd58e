//! The `join` command: the bot joins the member's voice channel.
use vstd::prelude::*;

use crate::voice::{join_channel, join_failed_text, joined_text};
use super::{reply, CommandSpec, Reply};

verus! {

/// The answer to `join` once the voice driver has tried to join `channel`:
/// the confirmation in rosewater, or the failure in red.
pub fn body(channel: u64, joined: bool) -> (r: Reply)
    ensures
        joined ==> r.color == 0xF6DBD8 && r.text@ == joined_text(channel),
        !joined ==> r.color == 0xE74C3C && r.text@ == join_failed_text(),
{
    reply(join_channel(channel, joined))
}

/// How `/join` is announced: no options.
pub fn register() -> (r: CommandSpec)
    ensures
        r.name@ == "join"@,
        r.description@ == "Invite me to join your voicechat"@,
        r.options.len() == 0,
{
    CommandSpec {
        name: String::from_str("join"),
        description: String::from_str("Invite me to join your voicechat"),
        options: Vec::new(),
    }
}

} // verus!
