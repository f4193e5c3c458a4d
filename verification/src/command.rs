//! What the bot tells Discord about a slash command when it registers it,
//! held as plain data: the command's name and description, and its options
//! with their kinds and the choices they offer.

use vstd::prelude::*;
use crate::game::{object_name, Object};

verus! {

/// The kind of value an option asks for.
#[derive(Clone, Copy, Debug, PartialEq, Eq, Structural)]
pub enum OptionKind {
    String,
    User,
}

/// A fixed value that a string option offers, with the label it shows.
#[derive(Debug)]
pub struct StringChoice {
    pub name: String,
    pub value: String,
}

/// An option of a slash command. A field left at `None` has not been set.
#[derive(Debug)]
pub struct CommandOption {
    pub name: Option<String>,
    pub description: Option<String>,
    pub kind: Option<OptionKind>,
    pub required: Option<bool>,
    pub choices: Option<Vec<StringChoice>>,
}

/// A slash command as it is registered. A field left at `None` has not been
/// set.
#[derive(Debug)]
pub struct ApplicationCommand {
    pub name: Option<String>,
    pub description: Option<String>,
    pub options: Option<Vec<CommandOption>>,
}

/// The abstract value of a `CommandOption`.
pub struct OptionView {
    pub name: Option<Seq<char>>,
    pub description: Option<Seq<char>>,
    pub kind: Option<OptionKind>,
    pub required: Option<bool>,
    pub choices: Option<Seq<(Seq<char>, Seq<char>)>>,
}

/// The abstract value of an `ApplicationCommand`.
pub struct CommandView {
    pub name: Option<Seq<char>>,
    pub description: Option<Seq<char>>,
    pub options: Option<Seq<OptionView>>,
}

/// The text of an optional string.
pub open spec fn opt_text(s: Option<String>) -> Option<Seq<char>> {
    match s {
        Some(t) => Some(t@),
        None => None,
    }
}

/// The abstract value of a choice: its label and its value.
pub open spec fn choice_view(c: StringChoice) -> (Seq<char>, Seq<char>) {
    (c.name@, c.value@)
}

impl View for CommandOption {
    type V = OptionView;

    open spec fn view(&self) -> OptionView {
        OptionView {
            name: opt_text(self.name),
            description: opt_text(self.description),
            kind: self.kind,
            required: self.required,
            choices: match self.choices {
                Some(v) => Some(v@.map_values(|c: StringChoice| choice_view(c))),
                None => None,
            },
        }
    }
}

impl View for ApplicationCommand {
    type V = CommandView;

    open spec fn view(&self) -> CommandView {
        CommandView {
            name: opt_text(self.name),
            description: opt_text(self.description),
            options: match self.options {
                Some(v) => Some(v@.map_values(|o: CommandOption| o@)),
                None => None,
            },
        }
    }
}

/// The choices that offer each of `objects` under its own name.
pub open spec fn object_choices(objects: Seq<Object>) -> Seq<(Seq<char>, Seq<char>)> {
    objects.map_values(|o: Object| (object_name(o), object_name(o)))
}

/// The command `c` with its name and description replaced.
pub open spec fn named(c: CommandView, name: Seq<char>, description: Seq<char>) -> CommandView {
    CommandView { name: Some(name), description: Some(description), options: c.options }
}

/// The options of `c`, none if they have not been set.
pub open spec fn options_or_empty(c: CommandView) -> Seq<OptionView> {
    match c.options {
        Some(o) => o,
        None => Seq::empty(),
    }
}

/// An option with the given fields set.
pub open spec fn option_view(
    name: Seq<char>,
    description: Seq<char>,
    kind: OptionKind,
    choices: Option<Seq<(Seq<char>, Seq<char>)>>,
) -> OptionView {
    OptionView {
        name: Some(name),
        description: Some(description),
        kind: Some(kind),
        required: Some(true),
        choices,
    }
}

impl ApplicationCommand {
    /// A command with no field set.
    pub fn new() -> (r: ApplicationCommand)
        ensures
            r@ == (CommandView { name: None, description: None, options: None }),
    {
        ApplicationCommand { name: None, description: None, options: None }
    }
}

/// A required option with the given name, description and kind, and with the
/// given choices if any.
pub fn required_option(
    name: &str,
    description: &str,
    kind: OptionKind,
    choices: Option<Vec<StringChoice>>,
) -> (r: CommandOption)
    ensures
        r@ == option_view(
            name@,
            description@,
            kind,
            match choices {
                Some(v) => Some(v@.map_values(|c: StringChoice| choice_view(c))),
                None => None,
            },
        ),
{
    CommandOption {
        name: Some(String::from_str(name)),
        description: Some(String::from_str(description)),
        kind: Some(kind),
        required: Some(true),
        choices,
    }
}

/// Choices that offer each of `objects`, in order, under its own name.
pub fn object_choice_list(objects: &[Object]) -> (r: Vec<StringChoice>)
    ensures
        r@.map_values(|c: StringChoice| choice_view(c)) == object_choices(objects@),
{
    let mut r: Vec<StringChoice> = Vec::new();
    let mut i: usize = 0;
    while i < objects.len()
        invariant
            i <= objects@.len(),
            r@.len() == i,
            forall|j: int|
                0 <= j < i ==> choice_view(#[trigger] r@[j]) == (
                    object_name(objects@[j]),
                    object_name(objects@[j]),
                ),
        decreases objects@.len() - i,
    {
        let name = objects[i].name();
        r.push(StringChoice { name: String::from_str(name), value: String::from_str(name) });
        i = i + 1;
    }
    assert(r@.map_values(|c: StringChoice| choice_view(c)) =~= object_choices(objects@));
    r
}

} // verus!
