//! `rock_paper_scissors` with seven objects: a player challenges another,
//! who answers by picking an object from a menu of the seven.

use vstd::prelude::*;
use crate::command::{
    object_choice_list, object_choices, option_view, required_option, ApplicationCommand,
    CommandOption, CommandView, OptionKind, OptionView,
};
use crate::game::{lemma_extended_decides, verb, Object, Rules};

verus! {

/// The objects of this game, in the order in which they are offered.
pub open spec fn objects() -> Seq<Object> {
    seq![
        Object::Rock,
        Object::Paper,
        Object::Scissors,
        Object::Cowboy,
        Object::Virus,
        Object::Computer,
        Object::Thwomp,
    ]
}

/// The rules of this game.
pub open spec fn rules() -> Rules {
    Rules::Extended
}

/// The objects of this game, in the order in which they are offered.
pub fn object_list() -> (r: Vec<Object>)
    ensures
        r@ == objects(),
{
    let r = vec![
        Object::Rock,
        Object::Paper,
        Object::Scissors,
        Object::Cowboy,
        Object::Virus,
        Object::Computer,
        Object::Thwomp,
    ];
    assert(r@ =~= objects());
    r
}

/// The rules of this game.
pub fn game_rules() -> (r: Rules)
    ensures
        r == rules(),
{
    Rules::Extended
}

/// The first option: the object the challenger fights with.
pub open spec fn object_option() -> OptionView {
    option_view(
        "object"@,
        "Object to fight with"@,
        OptionKind::String,
        Some(object_choices(objects())),
    )
}

/// The second option: the user who is challenged.
pub open spec fn user_option() -> OptionView {
    option_view("user"@, "User to challenge"@, OptionKind::User, None)
}

/// The command as `register` describes it, whatever it held before.
pub open spec fn registered(c: CommandView) -> CommandView {
    CommandView {
        name: Some("rock_paper_scissors"@),
        description: Some("Play rock paper scissors."@),
        options: Some(seq![object_option(), user_option()]),
    }
}

/// Describes the command: its name, its description, and its two options,
/// which replace any option set before.
pub fn register(command: &mut ApplicationCommand) -> (r: &mut ApplicationCommand)
    ensures
        r@ == registered(old(command)@),
        *final(command) == *final(r),
{
    command.name = Some(String::from_str("rock_paper_scissors"));
    command.description = Some(String::from_str("Play rock paper scissors."));
    let list = object_list();
    let choices = object_choice_list(list.as_slice());
    let object = required_option(
        "object",
        "Object to fight with",
        OptionKind::String,
        Some(choices),
    );
    let user = required_option("user", "User to challenge", OptionKind::User, None);
    let mut options: Vec<CommandOption> = Vec::new();
    options.push(object);
    options.push(user);
    command.options = Some(options);
    proof {
        assert(command@.options->0 =~= seq![object_option(), user_option()]);
    }
    command
}

/// The game's rules decide every duel between two different objects it
/// offers: one of them defeats the other.
pub proof fn lemma_rules_decide_offered(a: Object, b: Object)
    requires
        objects().contains(a),
        objects().contains(b),
        a != b,
    ensures
        verb(rules(), a, b) is Some || verb(rules(), b, a) is Some,
{
    lemma_extended_decides(a, b);
}

/// Every object of the game defeats some other object it offers.
pub proof fn lemma_every_object_wins_somewhere(a: Object)
    ensures
        exists|b: Object| objects().contains(b) && #[trigger] verb(rules(), a, b) is Some,
{
    reveal_with_fuel(crate::game::lookup, 4);
    let b = match a {
        Object::Rock => Object::Virus,
        Object::Cowboy => Object::Scissors,
        Object::Scissors => Object::Paper,
        Object::Virus => Object::Cowboy,
        Object::Computer => Object::Cowboy,
        Object::Thwomp => Object::Paper,
        Object::Paper => Object::Virus,
    };
    assert(objects()[0] == Object::Rock);
    assert(objects()[1] == Object::Paper);
    assert(objects()[2] == Object::Scissors);
    assert(objects()[3] == Object::Cowboy);
    assert(objects()[4] == Object::Virus);
    assert(objects().contains(b));
    assert(verb(rules(), a, b) is Some);
}

} // verus!
