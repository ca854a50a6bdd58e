//! `/join`, as the gateway delivers it.
use vstd::prelude::*;

use crate::cmd::CommandSpec;

verus! {

/// How `/join` is announced: no options.
pub fn register() -> (r: CommandSpec)
    ensures
        r.name@ == "join"@,
        r.description@ == "Invite me to join your voicechat"@,
        r.options.len() == 0,
{
    crate::cmd::join::register()
}

} // verus!
