//! `test`: a command that answers with a fixed text.

use vstd::prelude::*;
use crate::command::{named, ApplicationCommand, CommandView};
use crate::commands::Reply;

verus! {

/// The command `c` once `register` has described `test` in it.
pub open spec fn registered(c: CommandView) -> CommandView {
    named(c, "test"@, "A test command"@)
}

/// Describes the `test` command: its name and description; the options are
/// left as they are.
pub fn register(command: &mut ApplicationCommand) -> (r: &mut ApplicationCommand)
    ensures
        r@ == registered(old(command)@),
        *final(command) == *final(r),
{
    command.name = Some(String::from_str("test"));
    command.description = Some(String::from_str("A test command"));
    command
}

/// The answer to `test`: the text "Test", shown to everyone.
pub fn reply() -> (r: Reply)
    ensures
        r.content@ == "Test"@,
        !r.ephemeral,
{
    Reply { content: String::from_str("Test"), ephemeral: false }
}

} // verus!
