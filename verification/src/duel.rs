//! A duel in progress: a player has named an object and challenged another
//! player, who answers by picking an object from a menu.

use vstd::prelude::*;
use crate::command::{choice_view, object_choice_list, object_choices, StringChoice};
use crate::game::{challenge_message, challenge_text, result_message, result_text, Object, Rules};
use crate::text::{inner, strip_quotes};

verus! {

/// A menu from which the challenged player picks one object.
#[derive(Debug)]
pub struct SelectMenu {
    pub custom_id: String,
    pub placeholder: String,
    pub options: Vec<StringChoice>,
}

/// The message that opens a duel: an invitation, and a menu to answer with.
#[derive(Debug)]
pub struct Challenge {
    pub content: String,
    pub menu: SelectMenu,
}

/// What ends a duel: an announcement of its result, or a reply when the
/// challenged player did not answer in time.
#[derive(Debug)]
pub enum Conclusion {
    Announce(String),
    TimedOut(String),
}

/// A duel waiting for its answer: the challenger's object, the challenged
/// user, and the challenger's user id.
#[derive(Debug)]
pub struct Duel {
    pub object: String,
    pub user: String,
    pub challenger: u64,
}

impl Duel {
    /// Opens a duel from the JSON texts of the command's two options (the
    /// object, then the challenged user) and the challenger's id.
    pub fn start(object_json: &str, user_json: &str, challenger: u64) -> (r: Duel)
        ensures
            r.object@ == inner(object_json@),
            r.user@ == inner(user_json@),
            r.challenger == challenger,
    {
        Duel { object: strip_quotes(object_json), user: strip_quotes(user_json), challenger }
    }

    /// The invitation to the challenged user, with a menu that offers
    /// `objects` in order.
    pub fn challenge(&self, objects: &[Object]) -> (r: Challenge)
        ensures
            r.content@ == challenge_text(self.user@, self.challenger as nat),
            r.menu.custom_id@ == "object_select"@,
            r.menu.placeholder@ == "No object selected"@,
            r.menu.options@.map_values(|c: StringChoice| choice_view(c)) == object_choices(
                objects@,
            ),
    {
        Challenge {
            content: challenge_message(self.user.as_str(), self.challenger),
            menu: SelectMenu {
                custom_id: String::from_str("object_select"),
                placeholder: String::from_str("No object selected"),
                options: object_choice_list(objects),
            },
        }
    }

    /// The announcement once the challenged user has answered with `answer`.
    pub fn announce(&self, rules: Rules, answer: &str) -> (r: String)
        ensures
            r@ == result_text(rules, self.object@, answer@, self.user@, self.challenger as nat),
    {
        result_message(rules, self.object.as_str(), answer, self.user.as_str(), self.challenger)
    }

    /// How the duel ends: with the announcement of the answer if one came,
    /// with "Timed out" if none did.
    pub fn conclude(&self, rules: Rules, answer: Option<&str>) -> (r: Conclusion)
        ensures
            match answer {
                Some(a) => r matches Conclusion::Announce(m) && m@ == result_text(
                    rules,
                    self.object@,
                    a@,
                    self.user@,
                    self.challenger as nat,
                ),
                None => r matches Conclusion::TimedOut(t) && t@ == "Timed out"@,
            },
    {
        match answer {
            Some(a) => Conclusion::Announce(self.announce(rules, a)),
            None => Conclusion::TimedOut(String::from_str("Timed out")),
        }
    }
}

} // verus!
