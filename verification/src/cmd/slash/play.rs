//! `/play`, as the gateway delivers it.
use vstd::prelude::*;

use crate::cmd::{CommandSpec, OptionKind, OptionValue};

verus! {

/// The link given to `/play`: the option's text, or empty without text.
pub fn url_option(options: &Vec<Option<OptionValue>>) -> (r: String)
    requires
        options.len() > 0,
        options[0] is Some,
    ensures
        match options[0] {
            Some(OptionValue::Text(t)) => r@ == t@,
            _ => r@ == Seq::<char>::empty(),
        },
{
    crate::cmd::play::url_option(options)
}

/// How `/play` is announced.
pub fn register() -> (r: CommandSpec)
    ensures
        r.name@ == "play"@,
        r.description@ == "I will add a song from a URL to the current queue"@,
        r.options.len() == 1,
        r.options[0].name@ == "url"@,
        r.options[0].description@ == "Im going to look for something to play at that URL"@,
        r.options[0].kind == OptionKind::Text,
        r.options[0].required,
{
    crate::cmd::play::register()
}

} // verus!
