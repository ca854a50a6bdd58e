//! The `queue` command: show the songs queued in the guild.
use vstd::prelude::*;

use crate::voice::{empty_queue_text, no_queue_text, queue_listing, titles_view, view_queue};
use super::{reply, CommandSpec, Reply};

verus! {

/// The answer to `queue`: the listing of the queue in rosewater, the empty
/// queue's text in rosewater, or, without a voice handler, the failure in red.
pub fn body(queue: Option<&Vec<Option<String>>>) -> (r: Reply)
    ensures
        match queue {
            None => r.color == 0xE74C3C && r.text@ == no_queue_text(),
            Some(titles) => r.color == 0xF6DBD8 && r.text@ == if titles.len() == 0 {
                empty_queue_text()
            } else {
                queue_listing(titles_view(titles@), titles.len() as nat)
            },
        },
{
    reply(view_queue(queue))
}

/// How `/queue` is announced: no options.
pub fn register() -> (r: CommandSpec)
    ensures
        r.name@ == "queue"@,
        r.description@ == "View all songs that i have currently queued up for you :)"@,
        r.options.len() == 0,
{
    CommandSpec {
        name: String::from_str("queue"),
        description: String::from_str("View all songs that i have currently queued up for you :)"),
        options: Vec::new(),
    }
}

} // verus!
