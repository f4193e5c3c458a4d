//! `calc`: a command that evaluates an equation typed by the user.

use vstd::prelude::*;
use crate::command::{
    option_view, required_option, ApplicationCommand, CommandOption, CommandView, OptionKind,
    OptionView,
};
use crate::commands::Reply;

verus! {

/// The single option of `calc`: the equation to evaluate.
pub open spec fn equation_option() -> OptionView {
    option_view(
        "calculator"@,
        "The equation for the bot to calculate."@,
        OptionKind::String,
        None,
    )
}

/// The command as `register` describes `calc`, whatever it held before.
pub open spec fn registered(c: CommandView) -> CommandView {
    CommandView {
        name: Some("calc"@),
        description: Some("An automatic text calculator."@),
        options: Some(seq![equation_option()]),
    }
}

/// Describes the `calc` command: its name, its description, and its one
/// option, which replaces any option set before.
pub fn register(command: &mut ApplicationCommand) -> (r: &mut ApplicationCommand)
    ensures
        r@ == registered(old(command)@),
        *final(command) == *final(r),
{
    command.name = Some(String::from_str("calc"));
    command.description = Some(String::from_str("An automatic text calculator."));
    let option = required_option(
        "calculator",
        "The equation for the bot to calculate.",
        OptionKind::String,
        None,
    );
    let mut options: Vec<CommandOption> = Vec::new();
    options.push(option);
    command.options = Some(options);
    proof {
        assert(command@.options->0 =~= seq![equation_option()]);
    }
    command
}

/// The text of a successful evaluation: the equation, " = ", and the result.
pub open spec fn solved_text(equation: Seq<char>, result: Seq<char>) -> Seq<char> {
    equation + " = "@ + result
}

/// The answer to `calc` once the equation has been evaluated: for a success,
/// given as the written equation and the written result, both joined by
/// " = " for everyone to see; for a failure, the error's text, shown only
/// to the user who asked.
pub fn reply(evaluation: Result<(String, String), String>) -> (r: Reply)
    ensures
        match evaluation {
            Ok((equation, result)) => r.content@ == solved_text(equation@, result@)
                && !r.ephemeral,
            Err(why) => r.content@ == why@ && r.ephemeral,
        },
{
    match evaluation {
        Ok((equation, result)) => {
            let mut content = equation;
            content.append(" = ");
            content.append(result.as_str());
            Reply { content, ephemeral: false }
        },
        Err(why) => Reply { content: why, ephemeral: true },
    }
}

/// A successful reply's text starts with the whole equation, ends with the
/// whole result, and has exactly " = " between them.
pub proof fn lemma_solved_text_parts(equation: Seq<char>, result: Seq<char>)
    ensures
        solved_text(equation, result).len() == equation.len() + 3 + result.len(),
        solved_text(equation, result).subrange(0, equation.len() as int) == equation,
        solved_text(equation, result).subrange(
            equation.len() as int,
            equation.len() + 3int,
        ) == " = "@,
        solved_text(equation, result).subrange(
            equation.len() + 3int,
            equation.len() + 3int + result.len(),
        ) == result,
{
    reveal_strlit(" = ");
    let t = solved_text(equation, result);
    assert(t.subrange(0, equation.len() as int) =~= equation);
    assert(t.subrange(equation.len() as int, equation.len() + 3int) =~= " = "@);
    assert(t.subrange(equation.len() + 3int, equation.len() + 3int + result.len()) =~= result);
}

} // verus!
