use discord_bot::command::{ApplicationCommand, CommandOption, OptionKind};
use discord_bot::commands::{rock_paper_scissors, rps};
use discord_bot::handler::global_command;

fn summary(o: &CommandOption) -> (Option<&str>, Option<&str>, Option<OptionKind>, Option<bool>, Option<Vec<(String, String)>>) {
    (
        o.name.as_deref(),
        o.description.as_deref(),
        o.kind,
        o.required,
        o.choices
            .as_ref()
            .map(|v| v.iter().map(|c| (c.name.clone(), c.value.clone())).collect()),
    )
}

fn pairs(names: &[&str]) -> Option<Vec<(String, String)>> {
    Some(names.iter().map(|n| (n.to_string(), n.to_string())).collect())
}

#[test]
fn test_register() {
    let mut c = ApplicationCommand::new();
    discord_bot::commands::test::register(&mut c);
    assert_eq!(c.name.as_deref(), Some("test"));
    assert_eq!(c.description.as_deref(), Some("A test command"));
    assert!(c.options.is_none());
}

#[test]
fn calc_register() {
    let mut c = ApplicationCommand::new();
    discord_bot::commands::calc::register(&mut c);
    assert_eq!(c.name.as_deref(), Some("calc"));
    assert_eq!(c.description.as_deref(), Some("An automatic text calculator."));
    let options = c.options.as_ref().unwrap();
    assert_eq!(options.len(), 1);
    assert_eq!(
        summary(&options[0]),
        (Some("calculator"), Some("The equation for the bot to calculate."), Some(OptionKind::String), Some(true), None)
    );
}

#[test]
fn rps_register() {
    let mut c = ApplicationCommand::new();
    rps::register(&mut c);
    assert_eq!(c.name.as_deref(), Some("rock_paper_scissors"));
    assert_eq!(c.description.as_deref(), Some("Play rock paper scissors."));
    let options = c.options.as_ref().unwrap();
    assert_eq!(options.len(), 2);
    assert_eq!(
        summary(&options[0]),
        (
            Some("object"),
            Some("Object to fight with"),
            Some(OptionKind::String),
            Some(true),
            pairs(&["Rock", "Paper", "Scissors", "Cowboy", "Virus", "Computer", "Thwomp"])
        )
    );
    assert_eq!(
        summary(&options[1]),
        (Some("user"), Some("User to challenge"), Some(OptionKind::User), Some(true), None)
    );
}

#[test]
fn rock_paper_scissors_register_adds_options() {
    let mut c = ApplicationCommand::new();
    rock_paper_scissors::register(&mut c);
    assert_eq!(c.name.as_deref(), Some("rock_paper_scissors"));
    assert_eq!(c.description.as_deref(), Some("Get a user id"));
    let options = c.options.as_ref().unwrap();
    assert_eq!(options.len(), 2);
    assert_eq!(
        summary(&options[0]),
        (
            Some("rock_paper_scissors"),
            Some("Play rock paper scissors"),
            Some(OptionKind::String),
            Some(true),
            pairs(&["Rock", "Paper", "Scissors"])
        )
    );
    assert_eq!(
        summary(&options[1]),
        (Some("user"), Some("User to challenge"), Some(OptionKind::User), Some(true), None)
    );
    rock_paper_scissors::register(&mut c);
    assert_eq!(c.options.as_ref().unwrap().len(), 4);
}

#[test]
fn global_command_leaves_calc() {
    let mut all = ApplicationCommand::new();
    global_command(&mut all);
    let mut only = ApplicationCommand::new();
    discord_bot::commands::calc::register(&mut only);
    assert_eq!(all.name, only.name);
    assert_eq!(all.description, only.description);
    let a = all.options.as_ref().unwrap();
    let b = only.options.as_ref().unwrap();
    assert_eq!(a.len(), b.len());
    for (x, y) in a.iter().zip(b.iter()) {
        assert_eq!(summary(x), summary(y));
    }
}
