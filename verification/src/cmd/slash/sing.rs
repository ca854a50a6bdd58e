//! `/sing`, as the gateway delivers it.
use vstd::prelude::*;

use crate::cmd::{CommandSpec, Embed, OptionKind, OptionValue};
use crate::cmd::sing::sing_embed_text;
use crate::markup::italic_safe_text;

verus! {

/// The embed of `/sing`: the option's text made safe and in italics, or an
/// apology when it holds no text; in rosewater.
pub fn run(options: &Vec<Option<OptionValue>>) -> (r: Embed)
    requires
        options.len() > 0,
        options[0] is Some,
    ensures
        r.title is None,
        r.color == 0xF6DBD8,
        r.description@ == sing_embed_text(options[0]),
        options[0] matches Some(OptionValue::Text(t)) ==> r.description@ == seq!['_']
            + italic_safe_text(t@) + seq!['_'],
        options[0] matches Some(OptionValue::Other) ==> r.description@ == seq!['_']
            + italic_safe_text("Oh no... i cant sing that."@) + seq!['_'],
{
    crate::cmd::sing::run(options)
}

/// How `/sing` is announced.
pub fn register() -> (r: CommandSpec)
    ensures
        r.name@ == "sing"@,
        r.description@ == "I will sing anything you say"@,
        r.options.len() == 1,
        r.options[0].name@ == "text"@,
        r.options[0].description@ == "This is what i am gonna sing"@,
        r.options[0].kind == OptionKind::Text,
        r.options[0].required,
{
    crate::cmd::sing::register()
}

} // verus!
