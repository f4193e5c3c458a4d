//! The objects of rock, paper, scissors, the two rule sets the bot knows,
//! and how a duel between two named objects is decided and announced.

use vstd::prelude::*;
use crate::text::{
    all_digits, decimal, lemma_decimal_digits_pub, lemma_parse_decimal_roundtrip, parsed_u64,
    push_decimal, str_eq,
};

verus! {

/// An object a player can fight with.
#[derive(Clone, Copy, Debug, PartialEq, Eq, Structural)]
pub enum Object {
    Rock,
    Paper,
    Scissors,
    Cowboy,
    Virus,
    Computer,
    Thwomp,
}

/// Which table of victories decides a duel.
#[derive(Clone, Copy, Debug, PartialEq, Eq, Structural)]
pub enum Rules {
    /// Rock, paper and scissors only.
    Classic,
    /// Seven objects, each of which defeats three others.
    Extended,
}

/// The name under which an object is offered and chosen.
pub open spec fn object_name(o: Object) -> Seq<char> {
    match o {
        Object::Rock => "Rock"@,
        Object::Paper => "Paper"@,
        Object::Scissors => "Scissors"@,
        Object::Cowboy => "Cowboy"@,
        Object::Virus => "Virus"@,
        Object::Computer => "Computer"@,
        Object::Thwomp => "Thwomp"@,
    }
}

/// The object that a name designates, trying the names in the order of the
/// declaration of `Object`.
pub open spec fn object_named(s: Seq<char>) -> Option<Object> {
    if s == "Rock"@ {
        Some(Object::Rock)
    } else if s == "Paper"@ {
        Some(Object::Paper)
    } else if s == "Scissors"@ {
        Some(Object::Scissors)
    } else if s == "Cowboy"@ {
        Some(Object::Cowboy)
    } else if s == "Virus"@ {
        Some(Object::Virus)
    } else if s == "Computer"@ {
        Some(Object::Computer)
    } else if s == "Thwomp"@ {
        Some(Object::Thwomp)
    } else {
        None
    }
}

/// The phrase with which `a` defeats `b` in the classic game, if it does.
pub open spec fn classic_verb(a: Object, b: Object) -> Option<Seq<char>> {
    match (a, b) {
        (Object::Rock, Object::Scissors) => Some("crushes"@),
        (Object::Paper, Object::Rock) => Some("wraps around"@),
        (Object::Scissors, Object::Paper) => Some("cuts up"@),
        _ => None,
    }
}

/// The victims of `a` in the extended game, each with the phrase that
/// describes the victory, in the order of the bot's table.
pub open spec fn extended_table(a: Object) -> Seq<(Object, Seq<char>)> {
    match a {
        Object::Rock => seq![
            (Object::Virus, "outwaits"@),
            (Object::Computer, "smashes"@),
            (Object::Scissors, "crushes"@),
        ],
        Object::Cowboy => seq![
            (Object::Scissors, "puts away"@),
            (Object::Thwomp, "cripples"@),
            (Object::Rock, "steel-toe kicks"@),
        ],
        Object::Scissors => seq![
            (Object::Paper, "cuts"@),
            (Object::Computer, "cuts cord of"@),
            (Object::Virus, "cuts DNA of"@),
        ],
        Object::Virus => seq![
            (Object::Cowboy, "infects"@),
            (Object::Computer, "corrupts"@),
            (Object::Thwomp, "infects"@),
        ],
        Object::Computer => seq![
            (Object::Cowboy, "electrocutes"@),
            (Object::Paper, "uninstalls firmware for"@),
            (Object::Thwomp, "deletes assets for"@),
        ],
        Object::Thwomp => seq![
            (Object::Paper, "pierces"@),
            (Object::Rock, "shatters"@),
            (Object::Scissors, "bends"@),
        ],
        Object::Paper => seq![
            (Object::Virus, "ignores"@),
            (Object::Cowboy, "gives papercut too"@),
            (Object::Rock, "wraps and traps"@),
        ],
    }
}

/// The phrase of the last entry of `entries` whose victim is `target`.
pub open spec fn lookup(entries: Seq<(Object, Seq<char>)>, target: Object) -> Option<Seq<char>>
    decreases entries.len(),
{
    if entries.len() == 0 {
        None
    } else if entries.last().0 == target {
        Some(entries.last().1)
    } else {
        lookup(entries.drop_last(), target)
    }
}

/// The phrase with which `a` defeats `b` under `rules`, if it does.
pub open spec fn verb(rules: Rules, a: Object, b: Object) -> Option<Seq<char>> {
    match rules {
        Rules::Classic => classic_verb(a, b),
        Rules::Extended => lookup(extended_table(a), b),
    }
}

/// The phrase used when neither object defeats the other.
pub open spec fn tie_phrase() -> Seq<char> {
    "ties with"@
}

/// How a duel between the objects named `first` and `second` ends: whether
/// the second object wins, and the phrase that joins winner and loser.
/// Names that designate no object, and objects that do not defeat each
/// other, leave the first object in front with the phrase of a tie.
pub open spec fn duel(rules: Rules, first: Seq<char>, second: Seq<char>) -> (bool, Seq<char>) {
    match (object_named(first), object_named(second)) {
        (Some(a), Some(b)) => if verb(rules, a, b) is Some {
            (false, verb(rules, a, b)->0)
        } else if verb(rules, b, a) is Some {
            (true, verb(rules, b, a)->0)
        } else {
            (false, tie_phrase())
        },
        _ => (false, tie_phrase()),
    }
}

/// The announcement of a duel: `challenger` named `first`, and the player
/// `user` answered with `second`.
pub open spec fn result_text(
    rules: Rules,
    first: Seq<char>,
    second: Seq<char>,
    user: Seq<char>,
    challenger: nat,
) -> Seq<char> {
    let (second_wins, phrase) = duel(rules, first, second);
    let winner = if second_wins { second } else { first };
    let loser = if second_wins { first } else { second };
    let head = "**"@ + winner + "** "@ + phrase + " **"@ + loser + "**."@;
    if first == second {
        head + "\n         It's a tie!"@
    } else {
        head + "\n<@"@ + (if second_wins { user } else { decimal(challenger) }) + "> wins!"@
    }
}

/// The invitation sent to `user` on behalf of `challenger`.
pub open spec fn challenge_text(user: Seq<char>, challenger: nat) -> Seq<char> {
    "<@"@ + user + "> you have been challenged to Rock, Paper, Scissors by <@"@
        + decimal(challenger) + ">!"@
}

impl Object {
    /// The name of this object.
    pub fn name(&self) -> (r: &'static str)
        ensures
            r@ == object_name(*self),
    {
        match self {
            Object::Rock => "Rock",
            Object::Paper => "Paper",
            Object::Scissors => "Scissors",
            Object::Cowboy => "Cowboy",
            Object::Virus => "Virus",
            Object::Computer => "Computer",
            Object::Thwomp => "Thwomp",
        }
    }
}

/// The object that `s` names, if any.
pub fn parse_object(s: &str) -> (r: Option<Object>)
    ensures
        r == object_named(s@),
{
    if str_eq(s, "Rock") {
        Some(Object::Rock)
    } else if str_eq(s, "Paper") {
        Some(Object::Paper)
    } else if str_eq(s, "Scissors") {
        Some(Object::Scissors)
    } else if str_eq(s, "Cowboy") {
        Some(Object::Cowboy)
    } else if str_eq(s, "Virus") {
        Some(Object::Virus)
    } else if str_eq(s, "Computer") {
        Some(Object::Computer)
    } else if str_eq(s, "Thwomp") {
        Some(Object::Thwomp)
    } else {
        None
    }
}

/// The extended game's table row for `a`.
fn extended_row(a: Object) -> (r: Vec<(Object, &'static str)>)
    ensures
        r@.len() == extended_table(a).len(),
        forall|i: int|
            0 <= i < r@.len() ==> (#[trigger] r@[i]).0 == extended_table(a)[i].0 && r@[i].1@
                == extended_table(a)[i].1,
{
    match a {
        Object::Rock => vec![
            (Object::Virus, "outwaits"),
            (Object::Computer, "smashes"),
            (Object::Scissors, "crushes"),
        ],
        Object::Cowboy => vec![
            (Object::Scissors, "puts away"),
            (Object::Thwomp, "cripples"),
            (Object::Rock, "steel-toe kicks"),
        ],
        Object::Scissors => vec![
            (Object::Paper, "cuts"),
            (Object::Computer, "cuts cord of"),
            (Object::Virus, "cuts DNA of"),
        ],
        Object::Virus => vec![
            (Object::Cowboy, "infects"),
            (Object::Computer, "corrupts"),
            (Object::Thwomp, "infects"),
        ],
        Object::Computer => vec![
            (Object::Cowboy, "electrocutes"),
            (Object::Paper, "uninstalls firmware for"),
            (Object::Thwomp, "deletes assets for"),
        ],
        Object::Thwomp => vec![
            (Object::Paper, "pierces"),
            (Object::Rock, "shatters"),
            (Object::Scissors, "bends"),
        ],
        Object::Paper => vec![
            (Object::Virus, "ignores"),
            (Object::Cowboy, "gives papercut too"),
            (Object::Rock, "wraps and traps"),
        ],
    }
}

/// The phrase with which `a` defeats `b` under `rules`, if it does.
pub fn defeat_phrase(rules: Rules, a: Object, b: Object) -> (r: Option<&'static str>)
    ensures
        r is Some == verb(rules, a, b) is Some,
        r matches Some(p) ==> verb(rules, a, b) == Some(p@),
{
    match rules {
        Rules::Classic => match (a, b) {
            (Object::Rock, Object::Scissors) => Some("crushes"),
            (Object::Paper, Object::Rock) => Some("wraps around"),
            (Object::Scissors, Object::Paper) => Some("cuts up"),
            _ => None,
        },
        Rules::Extended => {
            let row = extended_row(a);
            let ghost table = extended_table(a);
            let mut found: Option<&'static str> = None;
            let mut i: usize = 0;
            while i < row.len()
                invariant
                    row@.len() == table.len(),
                    forall|j: int|
                        0 <= j < row@.len() ==> (#[trigger] row@[j]).0 == table[j].0
                            && row@[j].1@ == table[j].1,
                    i <= row@.len(),
                    found is Some == lookup(table.take(i as int), b) is Some,
                    found matches Some(p) ==> lookup(table.take(i as int), b) == Some(p@),
                decreases row@.len() - i,
            {
                assert(table.take(i + 1).drop_last() =~= table.take(i as int));
                if row[i].0 == b {
                    found = Some(row[i].1);
                }
                i = i + 1;
            }
            assert(table.take(row@.len() as int) =~= table);
            found
        },
    }
}

/// How the duel between the objects named `first` and `second` ends under
/// `rules`: whether the second object wins, and the phrase between winner
/// and loser.
pub fn decide(rules: Rules, first: &str, second: &str) -> (r: (bool, &'static str))
    ensures
        r.0 == duel(rules, first@, second@).0,
        r.1@ == duel(rules, first@, second@).1,
{
    match (parse_object(first), parse_object(second)) {
        (Some(a), Some(b)) => match defeat_phrase(rules, a, b) {
            Some(p) => (false, p),
            None => match defeat_phrase(rules, b, a) {
                Some(p) => (true, p),
                None => (false, "ties with"),
            },
        },
        _ => (false, "ties with"),
    }
}

/// The announcement of a duel in which `challenger` fought with `first` and
/// the player `user` answered with `second`.
pub fn result_message(rules: Rules, first: &str, second: &str, user: &str, challenger: u64) -> (r:
    String)
    ensures
        r@ == result_text(rules, first@, second@, user@, challenger as nat),
{
    let (second_wins, phrase) = decide(rules, first, second);
    let winner = if second_wins { second } else { first };
    let loser = if second_wins { first } else { second };
    let mut s = String::from_str("**");
    s.append(winner);
    s.append("** ");
    s.append(phrase);
    s.append(" **");
    s.append(loser);
    s.append("**.");
    if str_eq(first, second) {
        s.append("\n         It's a tie!");
    } else {
        s.append("\n<@");
        if second_wins {
            s.append(user);
        } else {
            push_decimal(&mut s, challenger);
        }
        s.append("> wins!");
    }
    proof {
        let head = "**"@ + winner@ + "** "@ + phrase@ + " **"@ + loser@ + "**."@;
        if first@ == second@ {
            assert(s@ =~= head + "\n         It's a tie!"@);
        } else if second_wins {
            assert(s@ =~= head + "\n<@"@ + user@ + "> wins!"@);
        } else {
            assert(s@ =~= head + "\n<@"@ + decimal(challenger as nat) + "> wins!"@);
        }
    }
    s
}

/// The invitation sent to `user` on behalf of `challenger`.
pub fn challenge_message(user: &str, challenger: u64) -> (r: String)
    ensures
        r@ == challenge_text(user@, challenger as nat),
{
    let mut s = String::from_str("<@");
    s.append(user);
    s.append("> you have been challenged to Rock, Paper, Scissors by <@");
    push_decimal(&mut s, challenger);
    s.append(">!");
    proof {
        assert(s@ =~= challenge_text(user@, challenger as nat));
    }
    s
}

/// The three objects of the classic game.
pub open spec fn is_classic(o: Object) -> bool {
    o == Object::Rock || o == Object::Paper || o == Object::Scissors
}

/// No object defeats itself, under either rule set.
pub proof fn lemma_no_self_defeat(rules: Rules, a: Object)
    ensures
        verb(rules, a, a) is None,
{
    reveal_with_fuel(lookup, 4);
}

/// Victory goes one way only: when `a` defeats `b`, `b` does not defeat `a`.
/// So the order in which the table's rows are searched cannot change a duel.
pub proof fn lemma_defeat_is_one_way(rules: Rules, a: Object, b: Object)
    ensures
        verb(rules, a, b) is Some ==> verb(rules, b, a) is None,
{
    reveal_with_fuel(lookup, 4);
}

/// In the extended game any two different objects are decided: one of them
/// defeats the other.
pub proof fn lemma_extended_decides(a: Object, b: Object)
    requires
        a != b,
    ensures
        verb(Rules::Extended, a, b) is Some || verb(Rules::Extended, b, a) is Some,
{
    reveal_with_fuel(lookup, 4);
}

/// In the classic game any two different objects among rock, paper and
/// scissors are decided: one of them defeats the other.
pub proof fn lemma_classic_decides(a: Object, b: Object)
    requires
        a != b,
        is_classic(a),
        is_classic(b),
    ensures
        verb(Rules::Classic, a, b) is Some || verb(Rules::Classic, b, a) is Some,
{
}

/// Two names that designate the same object are the same name.
pub proof fn lemma_object_named_injective(s: Seq<char>, t: Seq<char>)
    requires
        object_named(s) is Some,
        object_named(s) == object_named(t),
    ensures
        s == t,
{
}

/// Exchanging the two players of a duel between different objects that are
/// decided under the rules exchanges winner and loser and keeps the phrase.
pub proof fn lemma_duel_swap(rules: Rules, first: Seq<char>, second: Seq<char>)
    requires
        object_named(first) is Some,
        object_named(second) is Some,
        verb(rules, object_named(first)->0, object_named(second)->0) is Some
            || verb(rules, object_named(second)->0, object_named(first)->0) is Some,
    ensures
        duel(rules, second, first).0 == !duel(rules, first, second).0,
        duel(rules, second, first).1 == duel(rules, first, second).1,
{
    lemma_defeat_is_one_way(rules, object_named(first)->0, object_named(second)->0);
}

/// In the extended game a duel between two different objects always has a
/// winner: its phrase is the winner's victory over the loser in the table.
pub proof fn lemma_extended_duel_has_winner(first: Seq<char>, second: Seq<char>)
    requires
        object_named(first) is Some,
        object_named(second) is Some,
        first != second,
    ensures
        ({
            let (second_wins, phrase) = duel(Rules::Extended, first, second);
            let a = object_named(first)->0;
            let b = object_named(second)->0;
            if second_wins {
                verb(Rules::Extended, b, a) == Some(phrase)
            } else {
                verb(Rules::Extended, a, b) == Some(phrase)
            }
        }),
{
    let a = object_named(first)->0;
    let b = object_named(second)->0;
    if a == b {
        lemma_object_named_injective(first, second);
    }
    lemma_extended_decides(a, b);
}

/// The victories of the seven-object game, one by one: each object defeats
/// exactly the three victims listed here, with the phrase given.
pub proof fn lemma_extended_victories()
    ensures
        verb(Rules::Extended, Object::Rock, Object::Virus) == Some("outwaits"@),
        verb(Rules::Extended, Object::Rock, Object::Computer) == Some("smashes"@),
        verb(Rules::Extended, Object::Rock, Object::Scissors) == Some("crushes"@),
        verb(Rules::Extended, Object::Cowboy, Object::Scissors) == Some("puts away"@),
        verb(Rules::Extended, Object::Cowboy, Object::Thwomp) == Some("cripples"@),
        verb(Rules::Extended, Object::Cowboy, Object::Rock) == Some("steel-toe kicks"@),
        verb(Rules::Extended, Object::Scissors, Object::Paper) == Some("cuts"@),
        verb(Rules::Extended, Object::Scissors, Object::Computer) == Some("cuts cord of"@),
        verb(Rules::Extended, Object::Scissors, Object::Virus) == Some("cuts DNA of"@),
        verb(Rules::Extended, Object::Virus, Object::Cowboy) == Some("infects"@),
        verb(Rules::Extended, Object::Virus, Object::Computer) == Some("corrupts"@),
        verb(Rules::Extended, Object::Virus, Object::Thwomp) == Some("infects"@),
        verb(Rules::Extended, Object::Computer, Object::Cowboy) == Some("electrocutes"@),
        verb(Rules::Extended, Object::Computer, Object::Paper) == Some(
            "uninstalls firmware for"@,
        ),
        verb(Rules::Extended, Object::Computer, Object::Thwomp) == Some("deletes assets for"@),
        verb(Rules::Extended, Object::Thwomp, Object::Paper) == Some("pierces"@),
        verb(Rules::Extended, Object::Thwomp, Object::Rock) == Some("shatters"@),
        verb(Rules::Extended, Object::Thwomp, Object::Scissors) == Some("bends"@),
        verb(Rules::Extended, Object::Paper, Object::Virus) == Some("ignores"@),
        verb(Rules::Extended, Object::Paper, Object::Cowboy) == Some("gives papercut too"@),
        verb(Rules::Extended, Object::Paper, Object::Rock) == Some("wraps and traps"@),
        forall|a: Object, b: Object|
            #![trigger verb(Rules::Extended, a, b)]
            verb(Rules::Extended, a, b) is Some ==> {
                ||| (a == Object::Rock && (b == Object::Virus || b == Object::Computer
                    || b == Object::Scissors))
                ||| (a == Object::Cowboy && (b == Object::Scissors || b == Object::Thwomp
                    || b == Object::Rock))
                ||| (a == Object::Scissors && (b == Object::Paper || b == Object::Computer
                    || b == Object::Virus))
                ||| (a == Object::Virus && (b == Object::Cowboy || b == Object::Computer
                    || b == Object::Thwomp))
                ||| (a == Object::Computer && (b == Object::Cowboy || b == Object::Paper
                    || b == Object::Thwomp))
                ||| (a == Object::Thwomp && (b == Object::Paper || b == Object::Rock
                    || b == Object::Scissors))
                ||| (a == Object::Paper && (b == Object::Virus || b == Object::Cowboy
                    || b == Object::Rock))
            },
{
    reveal_with_fuel(lookup, 4);
}

/// The victories of the classic game: rock crushes scissors, paper wraps
/// around rock, scissors cut up paper, and there are no others.
pub proof fn lemma_classic_victories()
    ensures
        verb(Rules::Classic, Object::Rock, Object::Scissors) == Some("crushes"@),
        verb(Rules::Classic, Object::Paper, Object::Rock) == Some("wraps around"@),
        verb(Rules::Classic, Object::Scissors, Object::Paper) == Some("cuts up"@),
        forall|a: Object, b: Object|
            #![trigger verb(Rules::Classic, a, b)]
            verb(Rules::Classic, a, b) is Some ==> {
                ||| (a == Object::Rock && b == Object::Scissors)
                ||| (a == Object::Paper && b == Object::Rock)
                ||| (a == Object::Scissors && b == Object::Paper)
            },
{
}

/// Whether `t` ends with `suffix`.
pub open spec fn ends_with(t: Seq<char>, suffix: Seq<char>) -> bool {
    t.len() >= suffix.len() && t.subrange(t.len() - suffix.len(), t.len() as int) == suffix
}

/// Whether `t` starts with `prefix`.
pub open spec fn starts_with(t: Seq<char>, prefix: Seq<char>) -> bool {
    t.len() >= prefix.len() && t.subrange(0, prefix.len() as int) == prefix
}

/// Whether `t` ends with a mention `<@id>` followed by `tail`, where `id` is
/// written in digits that read back as `id`.
pub open spec fn ends_with_mention_of(t: Seq<char>, id: u64, tail: Seq<char>) -> bool {
    exists|k: int|
        #![trigger t.subrange(k, t.len() - tail.len())]
        2 <= k <= t.len() - tail.len() && t.subrange(k - 2, k) == "<@"@ && all_digits(
            t.subrange(k, t.len() - tail.len()),
        ) && parsed_u64(t.subrange(k, t.len() - tail.len())) == Some(id) && ends_with(t, tail)
}

/// `a + m + b`: the mention `m` stands right before `b`.
proof fn lemma_mention_window(a: Seq<char>, id: u64, b: Seq<char>)
    requires
        ends_with(a, "<@"@),
    ensures
        ends_with_mention_of(a + decimal(id as nat) + b, id, b),
{
    let d = decimal(id as nat);
    let ad = a + d;
    let t = ad + b;
    let k = a.len() as int;
    reveal_strlit("<@");
    lemma_decimal_digits_pub(id as nat);
    lemma_parse_decimal_roundtrip(id);
    assert(t.subrange(k, t.len() - b.len()) =~= ad.subrange(k, ad.len() as int));
    assert(ad.subrange(k, ad.len() as int) =~= d);
    assert(t.subrange(k - 2, k) =~= ad.subrange(k - 2, k));
    assert(ad.subrange(k - 2, k) =~= a.subrange(k - 2, k));
    assert(t.subrange(t.len() - b.len(), t.len() as int) =~= b);
    assert(ends_with(t, b));
    assert(t.subrange(k, t.len() - b.len()) == d);
}

/// Who is credited in an announcement: when the names differ, the challenged
/// user if the second object wins, and otherwise the challenger, by the
/// decimal writing of the challenger's id; when they are the same, nobody,
/// and the text ends with the tie notice. The text starts with the winner.
pub proof fn lemma_result_credits(
    rules: Rules,
    first: Seq<char>,
    second: Seq<char>,
    user: Seq<char>,
    challenger: u64,
)
    ensures
        ({
            let t = result_text(rules, first, second, user, challenger as nat);
            let second_wins = duel(rules, first, second).0;
            &&& starts_with(t, "**"@ + (if second_wins { second } else { first }) + "** "@)
            &&& first == second ==> ends_with(t, "\n         It's a tie!"@)
            &&& (first != second && second_wins) ==> ends_with(t, "\n<@"@ + user + "> wins!"@)
            &&& (first != second && !second_wins) ==> ends_with(
                t,
                "\n<@"@ + decimal(challenger as nat) + "> wins!"@,
            )
            &&& (first != second && !second_wins) ==> ends_with_mention_of(
                t,
                challenger,
                "> wins!"@,
            )
        }),
{
    let t = result_text(rules, first, second, user, challenger as nat);
    let (second_wins, phrase) = duel(rules, first, second);
    let winner = if second_wins { second } else { first };
    let loser = if second_wins { first } else { second };
    let w = "**"@ + winner + "** "@;
    let head = "**"@ + winner + "** "@ + phrase + " **"@ + loser + "**."@;
    let rest = phrase + " **"@ + loser + "**."@;
    assert(head =~= w + rest);
    if first == second {
        let tail = "\n         It's a tie!"@;
        assert(t =~= w + (rest + tail));
        assert(t.subrange(0, w.len() as int) =~= w);
        assert(t =~= head + tail);
        assert(t.subrange(t.len() - tail.len(), t.len() as int) =~= tail);
    } else if second_wins {
        let tail = "\n<@"@ + user + "> wins!"@;
        assert(t =~= w + (rest + tail));
        assert(t.subrange(0, w.len() as int) =~= w);
        assert(t =~= head + tail);
        assert(t.subrange(t.len() - tail.len(), t.len() as int) =~= tail);
    } else {
        let d = decimal(challenger as nat);
        let tail = "\n<@"@ + d + "> wins!"@;
        assert(t =~= w + (rest + tail));
        assert(t.subrange(0, w.len() as int) =~= w);
        assert(t =~= head + tail);
        assert(t.subrange(t.len() - tail.len(), t.len() as int) =~= tail);
        let a = head + "\n<@"@;
        assert(t =~= a + d + "> wins!"@);
        assert(ends_with(a, "<@"@)) by {
            reveal_strlit("\n<@");
            reveal_strlit("<@");
            assert(a.subrange(a.len() - 2, a.len() as int) =~= "<@"@);
        }
        lemma_mention_window(a, challenger, "> wins!"@);
    }
}

/// The invitation names the challenged user first and ends by mentioning
/// the challenger, whose id reads back from the digits of the mention.
pub proof fn lemma_challenge_mentions(user: Seq<char>, challenger: u64)
    ensures
        starts_with(challenge_text(user, challenger as nat), "<@"@ + user),
        ends_with_mention_of(challenge_text(user, challenger as nat), challenger, ">!"@),
{
    let t = challenge_text(user, challenger as nat);
    let p = "<@"@ + user;
    let lit = "> you have been challenged to Rock, Paper, Scissors by <@"@;
    let a = p + lit;
    assert(t =~= a + decimal(challenger as nat) + ">!"@);
    assert(t =~= p + (lit + decimal(challenger as nat) + ">!"@));
    assert(t.subrange(0, p.len() as int) =~= p);
    assert(ends_with(a, "<@"@)) by {
        reveal_strlit("> you have been challenged to Rock, Paper, Scissors by <@");
        reveal_strlit("<@");
        assert(a.subrange(a.len() - 2, a.len() as int) =~= "<@"@);
    }
    lemma_mention_window(a, challenger, ">!"@);
}

} // verus!
