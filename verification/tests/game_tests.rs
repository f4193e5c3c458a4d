use discord_bot::game::{challenge_message, decide, defeat_phrase, parse_object, result_message, Object, Rules};

const ALL: [Object; 7] = [
    Object::Rock,
    Object::Paper,
    Object::Scissors,
    Object::Cowboy,
    Object::Virus,
    Object::Computer,
    Object::Thwomp,
];

#[test]
fn names_round_trip() {
    for o in ALL.iter() {
        assert_eq!(parse_object(o.name()), Some(*o));
    }
    assert_eq!(parse_object("rock"), None);
    assert_eq!(parse_object("Lizard"), None);
    assert_eq!(parse_object(""), None);
}

#[test]
fn classic_phrases() {
    assert_eq!(defeat_phrase(Rules::Classic, Object::Rock, Object::Scissors), Some("crushes"));
    assert_eq!(defeat_phrase(Rules::Classic, Object::Paper, Object::Rock), Some("wraps around"));
    assert_eq!(defeat_phrase(Rules::Classic, Object::Scissors, Object::Paper), Some("cuts up"));
    assert_eq!(defeat_phrase(Rules::Classic, Object::Scissors, Object::Rock), None);
    assert_eq!(defeat_phrase(Rules::Classic, Object::Rock, Object::Virus), None);
}

#[test]
fn extended_phrases() {
    assert_eq!(defeat_phrase(Rules::Extended, Object::Rock, Object::Virus), Some("outwaits"));
    assert_eq!(defeat_phrase(Rules::Extended, Object::Cowboy, Object::Rock), Some("steel-toe kicks"));
    assert_eq!(defeat_phrase(Rules::Extended, Object::Virus, Object::Thwomp), Some("infects"));
    assert_eq!(
        defeat_phrase(Rules::Extended, Object::Computer, Object::Paper),
        Some("uninstalls firmware for")
    );
    assert_eq!(defeat_phrase(Rules::Extended, Object::Paper, Object::Cowboy), Some("gives papercut too"));
    assert_eq!(defeat_phrase(Rules::Extended, Object::Rock, Object::Paper), None);
}

#[test]
fn extended_every_pair_decided_one_way() {
    for a in ALL.iter() {
        let mut wins = 0;
        for b in ALL.iter() {
            let ab = defeat_phrase(Rules::Extended, *a, *b).is_some();
            let ba = defeat_phrase(Rules::Extended, *b, *a).is_some();
            if a == b {
                assert!(!ab);
            } else {
                assert!(ab != ba, "{:?} {:?}", a, b);
            }
            if ab {
                wins += 1;
            }
        }
        assert_eq!(wins, 3);
    }
}

#[test]
fn classic_every_pair_decided_one_way() {
    let classic = [Object::Rock, Object::Paper, Object::Scissors];
    for a in classic.iter() {
        for b in classic.iter() {
            let ab = defeat_phrase(Rules::Classic, *a, *b).is_some();
            let ba = defeat_phrase(Rules::Classic, *b, *a).is_some();
            if a == b {
                assert!(!ab && !ba);
            } else {
                assert!(ab != ba);
            }
        }
    }
}

#[test]
fn decide_orders_winner() {
    assert_eq!(decide(Rules::Classic, "Rock", "Paper"), (true, "wraps around"));
    assert_eq!(decide(Rules::Classic, "Paper", "Rock"), (false, "wraps around"));
    assert_eq!(decide(Rules::Classic, "Rock", "Rock"), (false, "ties with"));
    assert_eq!(decide(Rules::Classic, "Rock", "Cowboy"), (false, "ties with"));
    assert_eq!(decide(Rules::Extended, "Thwomp", "Cowboy"), (true, "cripples"));
    assert_eq!(decide(Rules::Extended, "Lizard", "Rock"), (false, "ties with"));
}

#[test]
fn decide_swaps_with_players() {
    for a in ALL.iter() {
        for b in ALL.iter() {
            if a != b {
                let (x, p) = decide(Rules::Extended, a.name(), b.name());
                let (y, q) = decide(Rules::Extended, b.name(), a.name());
                assert_eq!(x, !y);
                assert_eq!(p, q);
            }
        }
    }
}

#[test]
fn result_message_first_wins() {
    assert_eq!(
        result_message(Rules::Classic, "Rock", "Scissors", "42", 7),
        "**Rock** crushes **Scissors**.\n<@7> wins!"
    );
}

#[test]
fn result_message_second_wins() {
    assert_eq!(
        result_message(Rules::Classic, "Scissors", "Rock", "42", 7),
        "**Rock** crushes **Scissors**.\n<@42> wins!"
    );
    assert_eq!(
        result_message(Rules::Extended, "Thwomp", "Cowboy", "42", 1234567),
        "**Cowboy** cripples **Thwomp**.\n<@42> wins!"
    );
}

#[test]
fn result_message_tie() {
    assert_eq!(
        result_message(Rules::Extended, "Virus", "Virus", "42", 7),
        "**Virus** ties with **Virus**.\n         It's a tie!"
    );
}

#[test]
fn result_message_unknown_object() {
    assert_eq!(
        result_message(Rules::Classic, "Rock", "Cowboy", "42", 7),
        "**Rock** ties with **Cowboy**.\n<@7> wins!"
    );
}

#[test]
fn challenge_message_text() {
    assert_eq!(
        challenge_message("42", 7),
        "<@42> you have been challenged to Rock, Paper, Scissors by <@7>!"
    );
}
