//! The bot's slash commands, one module each.

pub mod calc;
pub mod rock_paper_scissors;
pub mod rps;
pub mod test;

use vstd::prelude::*;

verus! {

/// A reply to a slash command: its text, and whether only the user who
/// invoked the command sees it.
#[derive(Debug)]
pub struct Reply {
    pub content: String,
    pub ephemeral: bool,
}

} // verus!
