
use discord_bot::duel::{Conclusion, Duel};
use discord_bot::game::{Object, Rules};
use discord_bot::handler::{message_reply, not_implemented_reply, reply_to_lowered, route, Route};

#[test]
fn message_reply_to_trigger_word() {
    assert_eq!(message_reply("kys"), Some("Fuck you."));
    assert_eq!(message_reply("KyS"), Some("Fuck you."));
    assert_eq!(message_reply("KYS"), Some("Fuck you."));
    assert_eq!(message_reply("kys!"), None);
    assert_eq!(message_reply(" kys"), None);
    assert_eq!(message_reply("hello"), None);
    assert_eq!(reply_to_lowered("KYS"), None);
    assert_eq!(reply_to_lowered("kys"), Some("Fuck you."));
}

#[test]
fn routes() {
    assert_eq!(route("ping"), Route::Ping);
    assert_eq!(route("rps"), Route::Rps);
    assert_eq!(route("calc"), Route::Calc);
    assert_eq!(route("rock_paper_scissors"), Route::NotImplemented);
    assert_eq!(route("test"), Route::NotImplemented);
    assert_eq!(route("Ping"), Route::NotImplemented);
}

#[test]
fn fixed_replies() {
    let r = not_implemented_reply();
    assert_eq!(r.content, "Not Implemented");
    assert!(!r.ephemeral);
    let t = discord_bot::commands::test::reply();
    assert_eq!(t.content, "Test");
    assert!(!t.ephemeral);
}

#[test]
fn calc_replies() {
    let ok = discord_bot::commands::calc::reply(Ok(("1 + 2".to_string(), "3".to_string())));
    assert_eq!(ok.content, "1 + 2 = 3");
    assert!(!ok.ephemeral);
    let err = discord_bot::commands::calc::reply(Err("invalid operator".to_string()));
    assert_eq!(err.content, "invalid operator");
    assert!(err.ephemeral);
}

#[test]
fn duel_flow() {
    let d = Duel::start("\"Paper\"", "\"42\"", 7);
    assert_eq!(d.object, "Paper");
    assert_eq!(d.user, "42");
    assert_eq!(d.challenger, 7);
    let c = d.challenge(&[Object::Rock, Object::Paper, Object::Scissors]);
    assert_eq!(c.content, "<@42> you have been challenged to Rock, Paper, Scissors by <@7>!");
    assert_eq!(c.menu.custom_id, "object_select");
    assert_eq!(c.menu.placeholder, "No object selected");
    let labels: Vec<&str> = c.menu.options.iter().map(|o| o.name.as_str()).collect();
    assert_eq!(labels, vec!["Rock", "Paper", "Scissors"]);
    assert_eq!(d.announce(Rules::Classic, "Scissors"), "**Scissors** cuts up **Paper**.\n<@42> wins!");
    match d.conclude(Rules::Classic, Some("Rock")) {
        Conclusion::Announce(m) => assert_eq!(m, "**Paper** wraps around **Rock**.\n<@7> wins!"),
        Conclusion::TimedOut(_) => panic!("expected an announcement"),
    }
    match d.conclude(Rules::Classic, None) {
        Conclusion::TimedOut(t) => assert_eq!(t, "Timed out"),
        Conclusion::Announce(_) => panic!("expected a timeout"),
    }
}
