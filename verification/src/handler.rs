//! The bot's reactions to Discord events: messages in channels, invoked
//! slash commands, and the command registered once the bot is ready.

use vstd::prelude::*;
use crate::command::{ApplicationCommand, CommandView};
use crate::commands::{rps, Reply};
use crate::text::str_eq;

verus! {

/// The lowercase form of a string, as `str::to_lowercase` gives it: each
/// character replaced by its Unicode lowercase mapping.
pub uninterp spec fn lowercase(s: Seq<char>) -> Seq<char>;

/// Calls `str::to_lowercase`. Its contract only names the result: it is the
/// function `lowercase` of the argument's characters; the Unicode mapping
/// itself is not stated.
#[verifier::external_body]
fn to_lowercase(s: &str) -> (r: String)
    ensures
        r@ == lowercase(s@),
{
    s.to_lowercase()
}

/// The word that the bot answers when a message is made of it alone.
pub open spec fn trigger_word() -> Seq<char> {
    "kys"@
}

/// The bot's answer to that word.
pub open spec fn retort() -> Seq<char> {
    "Fuck you."@
}

/// The answer to a message whose lowercase text is `lowered`: the retort when
/// it is exactly the trigger word, nothing otherwise.
pub fn reply_to_lowered(lowered: &str) -> (r: Option<&'static str>)
    ensures
        r is Some <==> lowered@ == trigger_word(),
        r matches Some(t) ==> t@ == retort(),
{
    if str_eq(lowered, "kys") {
        Some("Fuck you.")
    } else {
        None
    }
}

/// The answer to a message with text `content`: the retort when its
/// lowercase form is exactly the trigger word, nothing otherwise.
pub fn message_reply(content: &str) -> (r: Option<&'static str>)
    ensures
        r is Some <==> lowercase(content@) == trigger_word(),
        r matches Some(t) ==> t@ == retort(),
{
    let lowered = to_lowercase(content);
    reply_to_lowered(lowered.as_str())
}

/// Where an invoked slash command is handled.
#[derive(Clone, Copy, Debug, PartialEq, Eq, Structural)]
pub enum Route {
    /// `ping`, answered by the fixed text of the `test` command.
    Ping,
    /// `rps`, the game with seven objects.
    Rps,
    /// `calc`, the calculator.
    Calc,
    /// Any other name.
    NotImplemented,
}

/// The route of a command invoked under `name`.
pub open spec fn route_of(name: Seq<char>) -> Route {
    if name == "ping"@ {
        Route::Ping
    } else if name == "rps"@ {
        Route::Rps
    } else if name == "calc"@ {
        Route::Calc
    } else {
        Route::NotImplemented
    }
}

/// Chooses where the command invoked under `name` is handled.
pub fn route(name: &str) -> (r: Route)
    ensures
        r == route_of(name@),
{
    if str_eq(name, "ping") {
        Route::Ping
    } else if str_eq(name, "rps") {
        Route::Rps
    } else if str_eq(name, "calc") {
        Route::Calc
    } else {
        Route::NotImplemented
    }
}

/// The answer to a command that has no handler: "Not Implemented", shown to
/// everyone.
pub fn not_implemented_reply() -> (r: Reply)
    ensures
        r.content@ == "Not Implemented"@,
        !r.ephemeral,
{
    Reply { content: String::from_str("Not Implemented"), ephemeral: false }
}

/// Describes, in the one global command the bot creates, the `test`, the
/// seven-object game and the `calc` commands, in this order.
pub fn global_command(command: &mut ApplicationCommand)
    ensures
        final(command)@ == crate::commands::calc::registered(rps::registered(crate::commands::test::registered(old(command)@))),
{
    crate::commands::test::register(command);
    rps::register(command);
    crate::commands::calc::register(command);
}

/// Registering `test`, the seven-object game and `calc` one after the other
/// in the same command leaves exactly the `calc` command: each description
/// replaces the name, the description and the options of the one before.
pub proof fn lemma_global_command_is_calc(c: CommandView)
    ensures
        crate::commands::calc::registered(rps::registered(crate::commands::test::registered(c))) == crate::commands::calc::registered(c),
{
}

/// Registering `calc` describes the same command whatever the command held
/// before.
pub proof fn lemma_calc_register_ignores_prior(c: CommandView, d: CommandView)
    ensures
        crate::commands::calc::registered(c) == crate::commands::calc::registered(d),
{
}

} // verus!
