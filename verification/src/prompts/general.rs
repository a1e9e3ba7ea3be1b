use crate::actor::BaseActor;
use crate::data::roles::GameRole;
use crate::game::EndResult;
use crate::text::{decimal, decimal_text};
use vstd::prelude::*;
use vstd::string::*;

verus! {

/// A seat as players read it: the name, then the id in brackets.
pub open spec fn seat_label(name: Seq<char>, id: u8) -> Seq<char> {
    name + " (ID "@ + decimal_text(id as nat) + ")"@
}

fn push_seat_label(text: &mut String, actor: &BaseActor)
    ensures
        final(text)@ == old(text)@ + seat_label(actor.name@, actor.id),
{
    let mut label = actor.name.clone();
    label.append(" (ID ");
    label.append(decimal(actor.id).as_str());
    label.append(")");
    text.append(label.as_str());
}

pub open spec fn utter_beginning_text(actor_count: u8, extra_messages: u8) -> Seq<char> {
    "You are playing a game of Mafia with "@ + decimal_text(actor_count as nat)
        + " players. A discussion runs on a shared budget of messages: as many core messages as it has players, and "@
        + decimal_text(extra_messages as nat)
        + " extra messages that are spent first. Talking, whispering and tagging a player for comment each use up a message; abstaining uses none. The discussion ends when the core messages run out."@
}

/// The text that opens the log of a game.
pub fn utter_beginning(actor_count: u8, extra_messages: u8) -> (text: String)
    ensures
        text@ == utter_beginning_text(actor_count, extra_messages),
{
    let mut text = String::from_str("You are playing a game of Mafia with ");
    text.append(decimal(actor_count).as_str());
    text.append(
        " players. A discussion runs on a shared budget of messages: as many core messages as it has players, and ",
    );
    text.append(decimal(extra_messages).as_str());
    text.append(
        " extra messages that are spent first. Talking, whispering and tagging a player for comment each use up a message; abstaining uses none. The discussion ends when the core messages run out.",
    );
    text
}

pub open spec fn introduce_you_text(name: Seq<char>, id: u8, role: GameRole) -> Seq<char> {
    "You are "@ + seat_label(name, id) + " with the role of "@ + role.name_text() + ": "@
        + role.description_text()
}

pub fn introduce_you(actor: &BaseActor) -> (text: String)
    ensures
        text@ == introduce_you_text(actor.name@, actor.id, actor.role),
{
    let mut text = String::from_str("You are ");
    push_seat_label(&mut text, actor);
    text.append(" with the role of ");
    text.append(actor.role.name().as_str());
    text.append(": ");
    text.append(actor.role.description());
    text
}

/// One line for each of the given roles: a line break, the name and the description.
pub open spec fn role_lines(roles: Seq<GameRole>) -> Seq<char>
    decreases roles.len(),
{
    if roles.len() == 0 {
        Seq::empty()
    } else {
        role_lines(roles.drop_last()) + "\n"@ + roles.last().name_text() + ": "@
            + roles.last().description_text()
    }
}

pub open spec fn build_role_list_text(roles: Seq<GameRole>) -> Seq<char> {
    "The roles in the game are:"@ + role_lines(roles)
}

pub fn build_role_list(roles: &[&GameRole]) -> (text: String)
    ensures
        text@ == build_role_list_text(Seq::new(roles@.len(), |i: int| *roles@[i])),
{
    let mut text = String::from_str("The roles in the game are:");
    let ghost head = text@;
    let ghost all = Seq::new(roles@.len(), |i: int| *roles@[i]);
    let mut i: usize = 0;
    assert(all.take(0) == Seq::<GameRole>::empty());
    while i < roles.len()
        invariant
            i <= roles.len(),
            all == Seq::new(roles@.len(), |i: int| *roles@[i]),
            text@ == head + role_lines(all.take(i as int)),
        decreases roles.len() - i,
    {
        let role = roles[i];
        assert(all.take(i + 1).drop_last() == all.take(i as int));
        let mut line = String::from_str("\n");
        line.append(role.name().as_str());
        line.append(": ");
        line.append(role.description());
        text.append(line.as_str());
        i = i + 1;
    }
    assert(all.take(roles.len() as int) == all);
    text
}

/// One line for each of the given seats: a line break, the name and the id.
pub open spec fn seat_lines(seats: Seq<(Seq<char>, u8)>) -> Seq<char>
    decreases seats.len(),
{
    if seats.len() == 0 {
        Seq::empty()
    } else {
        seat_lines(seats.drop_last()) + "\n"@ + seat_label(seats.last().0, seats.last().1)
    }
}

pub open spec fn build_actor_list_text(seats: Seq<(Seq<char>, u8)>) -> Seq<char> {
    "The players in the game are:"@ + seat_lines(seats)
}

pub fn build_actor_list(actors: &[BaseActor]) -> (text: String)
    ensures
        text@ == build_actor_list_text(
            Seq::new(actors@.len(), |i: int| (actors@[i].name@, actors@[i].id)),
        ),
{
    let mut text = String::from_str("The players in the game are:");
    let ghost head = text@;
    let ghost all = Seq::new(actors@.len(), |i: int| (actors@[i].name@, actors@[i].id));
    let mut i: usize = 0;
    assert(all.take(0) == Seq::<(Seq<char>, u8)>::empty());
    while i < actors.len()
        invariant
            i <= actors.len(),
            all == Seq::new(actors@.len(), |i: int| (actors@[i].name@, actors@[i].id)),
            text@ == head + seat_lines(all.take(i as int)),
        decreases actors.len() - i,
    {
        assert(all.take(i + 1).drop_last() == all.take(i as int));
        let mut line = String::from_str("\n");
        push_seat_label(&mut line, &actors[i]);
        text.append(line.as_str());
        i = i + 1;
    }
    assert(all.take(actors.len() as int) == all);
    text
}

pub open spec fn actor_was_killed_text(name: Seq<char>, role: GameRole) -> Seq<char> {
    name + " was killed! They were a "@ + role.name_text() + "."@
}

pub fn actor_was_killed(actor: &BaseActor) -> (text: String)
    ensures
        text@ == actor_was_killed_text(actor.name@, actor.role),
{
    let mut text = actor.name.clone();
    text.append(" was killed! They were a ");
    text.append(actor.role.name().as_str());
    text.append(".");
    text
}

pub open spec fn day_time_text(day_count: u8) -> Seq<char> {
    if day_count == 0 {
        "It is now day "@ + decimal_text(day_count as nat)
            + "--the first day. After discussion ends, voting will begin--remember that you cannot vote during the discussion."@
    } else {
        "It is now day "@ + decimal_text(day_count as nat)
            + ". After discussion ends, voting will begin--remember that you cannot vote during the discussion."@
    }
}

pub fn day_time(day_count: u8) -> (text: String)
    ensures
        text@ == day_time_text(day_count),
{
    let mut text = String::from_str("It is now day ");
    text.append(decimal(day_count).as_str());
    if day_count == 0 {
        text.append(
            "--the first day. After discussion ends, voting will begin--remember that you cannot vote during the discussion.",
        );
    } else {
        text.append(
            ". After discussion ends, voting will begin--remember that you cannot vote during the discussion.",
        );
    }
    text
}

pub open spec fn night_time_text(night_count: u8) -> Seq<char> {
    if night_count == 0 {
        "It is now night "@ + decimal_text(night_count as nat)
            + "--the first night. Night acting groups will make their move now."@
    } else {
        "It is now night "@ + decimal_text(night_count as nat)
            + ". Night acting groups will make their move now."@
    }
}

pub fn night_time(night_count: u8) -> (text: String)
    ensures
        text@ == night_time_text(night_count),
{
    let mut text = String::from_str("It is now night ");
    text.append(decimal(night_count).as_str());
    if night_count == 0 {
        text.append("--the first night. Night acting groups will make their move now.");
    } else {
        text.append(". Night acting groups will make their move now.");
    }
    text
}

pub open spec fn your_turn_to_talk_text(
    name: Seq<char>,
    role: GameRole,
    core_messages: u8,
    extra_messages: u8,
) -> Seq<char> {
    "It's now your turn to talk. There are currently "@ + decimal_text(core_messages as nat)
        + " core messages and "@ + decimal_text(extra_messages as nat)
        + " extra messages. Remember: you are "@ + name + ", a "@ + role.name_text() + "."@
}

/// The prompt of a discussion turn: it reports the budgets as they stand.
pub fn your_turn_to_talk(actor: &BaseActor, core_messages: u8, extra_messages: u8) -> (text: String)
    ensures
        text@ == your_turn_to_talk_text(actor.name@, actor.role, core_messages, extra_messages),
{
    let mut text = String::from_str("It's now your turn to talk. There are currently ");
    text.append(decimal(core_messages).as_str());
    text.append(" core messages and ");
    text.append(decimal(extra_messages).as_str());
    text.append(" extra messages. Remember: you are ");
    text.append(actor.name.as_str());
    text.append(", a ");
    text.append(actor.role.name().as_str());
    text.append(".");
    text
}

pub open spec fn tagged_for_comment_text(tagger: Seq<char>, tagged: Seq<char>) -> Seq<char> {
    tagger + " tagged "@ + tagged + " for comment."@
}

pub fn tagged_for_comment(tagger: &BaseActor, tagged: &BaseActor) -> (text: String)
    ensures
        text@ == tagged_for_comment_text(tagger.name@, tagged.name@),
{
    let mut text = tagger.name.clone();
    text.append(" tagged ");
    text.append(tagged.name.as_str());
    text.append(" for comment.");
    text
}

pub open spec fn voting_begins_text() -> Seq<char> {
    "Voting has begun."@
}

pub fn voting_begins() -> (text: &'static str)
    ensures
        text@ == voting_begins_text(),
{
    "Voting has begun."
}

pub open spec fn time_to_vote_text() -> Seq<char> {
    "It's now your turn to vote. You can abstain or use the Talk tool to leave a comment or explanation if you wish."@
}

pub fn time_to_vote() -> (text: &'static str)
    ensures
        text@ == time_to_vote_text(),
{
    "It's now your turn to vote. You can abstain or use the Talk tool to leave a comment or explanation if you wish."
}

/// The narration of one seat's vote: whom it voted for, if anyone, and what
/// it had to say, if anything.
pub open spec fn actor_voted_text(
    voter: Seq<char>,
    voted: Option<Seq<char>>,
    comment: Option<Seq<char>>,
) -> Seq<char> {
    match (voted, comment) {
        (Some(v), Some(c)) => voter + " voted for "@ + v + " with a comment: "@ + c,
        (None, Some(c)) => voter + " abstained with a comment: "@ + c,
        (Some(v), None) => voter + " voted for "@ + v + " with no comment."@,
        (None, None) => voter + " abstained with no comment."@,
    }
}

pub fn actor_voted(voter: &BaseActor, voted: Option<&BaseActor>, comment: Option<String>) -> (text:
    String)
    ensures
        text@ == actor_voted_text(
            voter.name@,
            match voted {
                Some(v) => Some(v.name@),
                None => None,
            },
            match comment {
                Some(c) => Some(c@),
                None => None,
            },
        ),
{
    let mut text = voter.name.clone();
    match (voted, comment) {
        (Some(v), Some(c)) => {
            text.append(" voted for ");
            text.append(v.name.as_str());
            text.append(" with a comment: ");
            text.append(c.as_str());
        },
        (None, Some(c)) => {
            text.append(" abstained with a comment: ");
            text.append(c.as_str());
        },
        (Some(v), None) => {
            text.append(" voted for ");
            text.append(v.name.as_str());
            text.append(" with no comment.");
        },
        (None, None) => {
            text.append(" abstained with no comment.");
        },
    }
    text
}

/// The announcement that closes a vote: who received the most votes, if
/// anyone did, and that seat's role where it is to be revealed.
pub open spec fn voting_ends_text(chosen: Option<(Seq<char>, GameRole)>, reveal_role: bool) -> Seq<
    char,
> {
    match chosen {
        Some((name, role)) => if reveal_role {
            "Voting has ended. "@ + name + " received the most votes. They were a "@
                + role.name_text() + "."@
        } else {
            "Voting has ended. "@ + name + " received the most votes."@
        },
        None => "Voting has ended. Nobody in particular received the most votes."@,
    }
}

pub fn voting_ends(actor: Option<&BaseActor>, reveal_role: bool) -> (text: String)
    ensures
        text@ == voting_ends_text(
            match actor {
                Some(a) => Some((a.name@, a.role)),
                None => None,
            },
            reveal_role,
        ),
{
    match actor {
        Some(actor) => {
            let mut text = String::from_str("Voting has ended. ");
            text.append(actor.name.as_str());
            if reveal_role {
                text.append(" received the most votes. They were a ");
                text.append(actor.role.name().as_str());
                text.append(".");
            } else {
                text.append(" received the most votes.");
            }
            text
        },
        None => String::from_str("Voting has ended. Nobody in particular received the most votes."),
    }
}

pub open spec fn abstained_in_discussion_text(name: Seq<char>) -> Seq<char> {
    name + " abstained"@
}

pub fn abstained_in_discussion(actor: &BaseActor) -> (text: String)
    ensures
        text@ == abstained_in_discussion_text(actor.name@),
{
    let mut text = actor.name.clone();
    text.append(" abstained");
    text
}

pub open spec fn public_whisper_notice_text(from: Seq<char>, to: Seq<char>) -> Seq<char> {
    from + " whispered to "@ + to
}

pub fn public_whisper_notice(from: &BaseActor, to: &BaseActor) -> (text: String)
    ensures
        text@ == public_whisper_notice_text(from.name@, to.name@),
{
    let mut text = from.name.clone();
    text.append(" whispered to ");
    text.append(to.name.as_str());
    text
}

pub open spec fn whisperer_text(to: Seq<char>, message: Seq<char>) -> Seq<char> {
    "You whispered to "@ + to + ": "@ + message
}

/// The confirmation that the sender of a whisper reads.
pub fn whisperer(to: &BaseActor, message: &str) -> (text: String)
    ensures
        text@ == whisperer_text(to.name@, message@),
{
    let mut text = String::from_str("You whispered to ");
    text.append(to.name.as_str());
    text.append(": ");
    text.append(message);
    text
}

pub open spec fn whispered_text(from: Seq<char>, from_id: u8, message: Seq<char>) -> Seq<char> {
    seat_label(from, from_id) + " whispered to you: "@ + message
}

/// The whisper as its receiver reads it.
pub fn whispered(from: &BaseActor, message: &str) -> (text: String)
    ensures
        text@ == whispered_text(from.name@, from.id, message@),
{
    let mut text = String::new();
    push_seat_label(&mut text, from);
    text.append(" whispered to you: ");
    text.append(message);
    text
}

pub open spec fn game_end_text(end_result: EndResult) -> Seq<char> {
    match end_result {
        EndResult::Mafia => "The game has ended.\n"@
            + "The mafia won--they reached an equal amount of players with town"@,
        EndResult::Town => "The game has ended.\n"@ + "The town won--all mafia were eliminated"@,
    }
}

pub fn game_end(end_result: &EndResult) -> (text: String)
    ensures
        text@ == game_end_text(*end_result),
{
    let mut text = String::from_str("The game has ended.\n");
    match end_result {
        EndResult::Mafia => {
            text.append("The mafia won--they reached an equal amount of players with town");
        },
        EndResult::Town => {
            text.append("The town won--all mafia were eliminated");
        },
    }
    text
}

} // verus!
