//! `rock_paper_scissors` with rock, paper and scissors only: a player
//! challenges another, who answers by picking an object from a menu.

use vstd::prelude::*;
use crate::command::{
    object_choice_list, object_choices, option_view, options_or_empty, required_option,
    ApplicationCommand, CommandView, OptionKind, OptionView,
};
use crate::game::{lemma_classic_decides, verb, Object, Rules};

verus! {

/// The objects of this game, in the order in which they are offered.
pub open spec fn objects() -> Seq<Object> {
    seq![Object::Rock, Object::Paper, Object::Scissors]
}

/// The rules of this game.
pub open spec fn rules() -> Rules {
    Rules::Classic
}

/// The objects of this game, in the order in which they are offered.
pub fn object_list() -> (r: Vec<Object>)
    ensures
        r@ == objects(),
{
    let r = vec![Object::Rock, Object::Paper, Object::Scissors];
    assert(r@ =~= objects());
    r
}

/// The rules of this game.
pub fn game_rules() -> (r: Rules)
    ensures
        r == rules(),
{
    Rules::Classic
}

/// The first option: the object the challenger fights with.
pub open spec fn object_option() -> OptionView {
    option_view(
        "rock_paper_scissors"@,
        "Play rock paper scissors"@,
        OptionKind::String,
        Some(object_choices(objects())),
    )
}

/// The second option: the user who is challenged.
pub open spec fn user_option() -> OptionView {
    option_view("user"@, "User to challenge"@, OptionKind::User, None)
}

/// The command `c` once `register` has described the game in it: name and
/// description replaced, and the two options added after those it had.
pub open spec fn registered(c: CommandView) -> CommandView {
    CommandView {
        name: Some("rock_paper_scissors"@),
        description: Some("Get a user id"@),
        options: Some(options_or_empty(c).push(object_option()).push(user_option())),
    }
}

/// Describes the command: its name, its description, and two more options
/// after any it already has.
pub fn register(command: &mut ApplicationCommand) -> (r: &mut ApplicationCommand)
    ensures
        r@ == registered(old(command)@),
        *final(command) == *final(r),
{
    command.name = Some(String::from_str("rock_paper_scissors"));
    command.description = Some(String::from_str("Get a user id"));
    let list = object_list();
    let choices = object_choice_list(list.as_slice());
    let object = required_option(
        "rock_paper_scissors",
        "Play rock paper scissors",
        OptionKind::String,
        Some(choices),
    );
    let user = required_option("user", "User to challenge", OptionKind::User, None);
    let mut options = match command.options.take() {
        Some(v) => v,
        None => Vec::new(),
    };
    options.push(object);
    options.push(user);
    command.options = Some(options);
    proof {
        assert(command@.options->0 =~= options_or_empty(old(command)@).push(object_option()).push(
            user_option(),
        ));
    }
    command
}

/// The game's rules decide every duel between two different objects it
/// offers, with the classic phrases: rock crushes scissors, paper wraps
/// around rock, scissors cut up paper.
pub proof fn lemma_rules_decide_offered(a: Object, b: Object)
    requires
        objects().contains(a),
        objects().contains(b),
        a != b,
    ensures
        verb(rules(), a, b) is Some || verb(rules(), b, a) is Some,
        verb(rules(), Object::Rock, Object::Scissors) == Some("crushes"@),
        verb(rules(), Object::Paper, Object::Rock) == Some("wraps around"@),
        verb(rules(), Object::Scissors, Object::Paper) == Some("cuts up"@),
{
    assert(objects().contains(a) ==> exists|i: int| 0 <= i < 3 && objects()[i] == a);
    assert(a == Object::Rock || a == Object::Paper || a == Object::Scissors);
    assert(b == Object::Rock || b == Object::Paper || b == Object::Scissors);
    lemma_classic_decides(a, b);
}

} // verus!
