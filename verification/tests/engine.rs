use mafia_engine::actor::{ActorKind, BaseActor};
use mafia_engine::context_entry::{ContextEntry, SayerType};
use mafia_engine::data::action::Action;
use mafia_engine::data::channel::Channel;
use mafia_engine::data::extra_data::ExtraData;
use mafia_engine::data::roles::GameRole;
use mafia_engine::game::iterate::{Request, Step};
use mafia_engine::game::roster::Pick;
use mafia_engine::game::{DayNightCount, EndResult, Game, OutboundEvent, Stage};
use mafia_engine::llm::tools::ToolKind;

fn seat(id: u8, name: &str, role: GameRole) -> BaseActor {
    BaseActor {
        dead: false,
        name: name.to_string(),
        id,
        kind: ActorKind::Real,
        extra_data: Vec::new(),
        role,
    }
}

fn game_of(roles: &[GameRole], night: bool) -> Game {
    let names = ["Ada", "Bob", "Cy", "Di", "Eve", "Fay"];
    let mut game = Game::new(None);
    game.actors = roles
        .iter()
        .enumerate()
        .map(|(i, role)| seat(i as u8, names[i], *role))
        .collect();
    game.day_night_count.is_night = night;
    game
}

fn asked(step: &Step) -> u8 {
    match step {
        Step::Ask(request) => request.actor,
        other => panic!("no request: {:?}", other),
    }
}

fn prompt(step: &Step) -> String {
    match step {
        Step::Ask(request) => request.prompt.clone(),
        other => panic!("no request: {:?}", other),
    }
}

fn contents(game: &Game) -> Vec<String> {
    game.context.iter().map(|e| e.content.clone()).collect()
}

fn talk_until_vote(game: &mut Game, mut step: Step) -> Step {
    let mut turns = 0;
    while prompt(&step).starts_with("It's now your turn to talk.") {
        step = game.answer(&Action::Talk("...".to_string()));
        turns += 1;
        assert!(turns < 100);
    }
    step
}

#[test]
fn a_night_without_sheriff_and_doctor_goes_straight_to_the_mafia() {
    let mut game = game_of(
        &[GameRole::Mafioso, GameRole::Villager, GameRole::Villager, GameRole::Villager],
        true,
    );
    let step = game.iterate();
    assert_eq!(
        step,
        Step::Ask(Request {
            actor: 0,
            prompt: "It's now your turn to talk. There are currently 1 core messages and 7 extra messages. Remember: you are Ada, a Mafioso.".to_string(),
            tools: vec![
                ToolKind::Abstain,
                ToolKind::Talk,
                ToolKind::TagPlayerForComment,
                ToolKind::Whisper,
                ToolKind::MultiCall
            ]
        })
    );
    assert_eq!(game.stage, Stage::Talking);
    assert_eq!(game.context.len(), 2);
    assert_eq!(
        game.context[0],
        ContextEntry {
            content: "It is now night 0--the first night. Night acting groups will make their move now.".to_string(),
            sayer_type: SayerType::System,
            extra_data: vec![ExtraData::SaidInChannel(Channel::Global)]
        }
    );
    assert!(game.context[1].content.starts_with("Mafia, it's now your turn to discuss."));
    assert_eq!(game.context[1].extra_data, [ExtraData::SaidInChannel(Channel::Mafia)]);
    assert_eq!(
        game.outbox,
        [
            OutboundEvent::LogAppended(0),
            OutboundEvent::RosterChanged,
            OutboundEvent::LogAppended(1)
        ]
    );
}

#[test]
fn a_game_from_the_first_night_to_the_towns_win() {
    let mut game = game_of(
        &[GameRole::Mafioso, GameRole::Villager, GameRole::Villager, GameRole::Villager],
        true,
    );
    let step = game.iterate();
    let step = talk_until_vote(&mut game, step);
    assert_eq!(game.talk.core_messages, 0);
    assert_eq!(game.talk.extra_messages, 0);
    assert_eq!(
        step,
        Step::Ask(Request {
            actor: 0,
            prompt: "It's now your turn to vote. You can abstain or use the Talk tool to leave a comment or explanation if you wish.".to_string(),
            tools: vec![ToolKind::Abstain, ToolKind::Talk, ToolKind::ProvideID, ToolKind::MultiCall]
        })
    );
    let step = game.answer(&Action::ProvideID(2));
    assert_eq!(step, Step::PhaseOver);
    assert!(game.actors[2].dead);
    assert!(!game.actors[0].dead && !game.actors[1].dead && !game.actors[3].dead);
    assert_eq!(game.last_kill, Some(vec![2]));
    assert_eq!(game.end_result, None);
    assert_eq!(
        game.day_night_count,
        DayNightCount { day_count: 0, night_count: 1, is_night: false }
    );
    assert_eq!(game.stage, Stage::Idle);
    let log = contents(&game);
    assert_eq!(log[log.len() - 2], "Ada voted for Cy with no comment.");
    assert_eq!(log[log.len() - 1], "Voting has ended. Cy received the most votes.");
    assert_eq!(
        game.context.last().map(|e| e.extra_data.clone()),
        Some(vec![ExtraData::SaidInChannel(Channel::Mafia)])
    );

    let nightly = game.context.len();
    let step = game.iterate();
    assert_eq!(game.context[nightly].content, "Cy was killed! They were a Villager.");
    assert_eq!(game.context[nightly].extra_data, [ExtraData::SaidInChannel(Channel::Global)]);
    assert_eq!(
        game.context[nightly + 1].content,
        "It is now day 0--the first day. After discussion ends, voting will begin--remember that you cannot vote during the discussion."
    );
    assert_eq!(game.last_kill, None);
    assert_eq!(asked(&step), 0);
    assert_eq!(
        prompt(&step),
        "It's now your turn to talk. There are currently 4 core messages and 7 extra messages. Remember: you are Ada, a Mafioso."
    );
    let step = game.answer(&Action::Talk("I am innocent".to_string()));
    assert_eq!(asked(&step), 1);
    let step = game.answer(&Action::Abstain);
    assert_eq!(asked(&step), 3);
    let step = game.answer(&Action::Talk("Ada is lying".to_string()));
    assert_eq!(asked(&step), 0);
    let step = talk_until_vote(&mut game, step);
    assert_eq!(contents(&game).iter().filter(|c| *c == "Voting has begun.").count(), 1);
    assert_eq!(asked(&step), 0);
    let step = game.answer(&Action::Abstain);
    assert_eq!(asked(&step), 1);
    let step = game.answer(&Action::MultiCall(vec![
        Action::Talk("it was Ada".to_string()),
        Action::ProvideID(0),
    ]));
    assert_eq!(asked(&step), 3);
    let step = game.answer(&Action::ProvideID(0));
    assert_eq!(step, Step::GameOver(EndResult::Town));
    assert!(game.actors[0].dead);
    assert_eq!(game.end_result, Some(EndResult::Town));
    assert_eq!(
        game.day_night_count,
        DayNightCount { day_count: 1, night_count: 1, is_night: true }
    );
    let log = contents(&game);
    assert_eq!(
        &log[log.len() - 4..],
        [
            "Ada abstained with no comment.",
            "Bob voted for Ada with a comment: it was Ada",
            "Di voted for Ada with no comment.",
            "Voting has ended. Ada received the most votes. They were a Mafioso."
        ]
    );

    let before = game.context.len();
    game.take_events();
    let step = game.iterate();
    assert_eq!(step, Step::GameOver(EndResult::Town));
    assert_eq!(game.context.len(), before + 1);
    assert_eq!(
        game.context[before].content,
        "The game has ended.\nThe town won--all mafia were eliminated"
    );
    assert_eq!(
        game.take_events(),
        [OutboundEvent::LogAppended(before), OutboundEvent::GameEnded(EndResult::Town)]
    );
    let frozen = game.clone();
    let step = game.iterate();
    assert_eq!(step, Step::GameOver(EndResult::Town));
    assert_eq!(game, frozen);
    let step = game.iterate();
    assert_eq!(step, Step::GameOver(EndResult::Town));
    assert_eq!(game, frozen);
}

#[test]
fn sheriff_and_doctor_act_before_the_mafia() {
    let mut game = game_of(
        &[
            GameRole::Sheriff,
            GameRole::Mafioso,
            GameRole::Doctor,
            GameRole::Villager,
            GameRole::Villager,
            GameRole::Sheriff,
        ],
        true,
    );
    game.actors[5].dead = true;
    let step = game.iterate();
    assert_eq!(
        step,
        Step::Ask(Request {
            actor: 0,
            prompt: "Sheriff, it's now your turn to pick a player to investigate.".to_string(),
            tools: vec![ToolKind::ProvideID]
        })
    );
    let step = game.answer(&Action::ProvideID(1));
    assert_eq!(
        game.context.last(),
        Some(&ContextEntry {
            content: "You chose to investigate Bob, they are mafia!".to_string(),
            sayer_type: SayerType::System,
            extra_data: vec![ExtraData::SaidInChannel(Channel::ToSelf(0))]
        })
    );
    assert_eq!(
        step,
        Step::Ask(Request {
            actor: 2,
            prompt: "Doctor, it's now your turn to pick a player to protect.".to_string(),
            tools: vec![ToolKind::ProvideID]
        })
    );
    let step = game.answer(&Action::ProvideID(3));
    assert_eq!(game.actors[3].extra_data, [ExtraData::ProtectedByDoctor]);
    let log = contents(&game);
    assert_eq!(log[log.len() - 2], "You chose to protect Di.");
    assert_eq!(
        game.context[game.context.len() - 2].extra_data,
        [ExtraData::SaidInChannel(Channel::ToSelf(2))]
    );
    assert_eq!(asked(&step), 1);
    talk_until_vote(&mut game, step);
    let step = game.answer(&Action::ProvideID(3));
    assert_eq!(step, Step::PhaseOver);
    assert!(!game.actors[3].dead);
    assert_eq!(game.last_kill, None);
    let log = contents(&game);
    assert_eq!(
        &log[log.len() - 2..],
        [
            "Voting has ended. Di received the most votes.",
            "An attempt was made on Di's life... but they were protected by a doctor!"
        ]
    );
    assert_eq!(
        game.context.last().map(|e| e.extra_data.clone()),
        Some(vec![ExtraData::SaidInChannel(Channel::Global)])
    );
    let step = game.iterate();
    assert_eq!(game.actors[3].extra_data, Vec::<ExtraData>::new());
    assert_eq!(asked(&step), 0);
    assert!(!contents(&game).iter().any(|c| c.contains("was killed")));
}

#[test]
fn a_sheriff_that_provides_no_id_learns_nothing() {
    let mut game = game_of(&[GameRole::Sheriff, GameRole::Mafioso, GameRole::Villager], true);
    game.iterate();
    let before = game.context.len();
    game.answer(&Action::Talk("who?".to_string()));
    assert_eq!(contents(&game)[before..], ["Mafia, it's now your turn to discuss. You are now in a private channel--nobody else but your fellow mafia can hear you. You can not only use this opportunity to discuss potential targets, but also plan ahead with your fellow mafia. Remember that you cannot vote during the discussion."]);
    let mut game = game_of(&[GameRole::Sheriff, GameRole::Mafioso, GameRole::Villager], true);
    game.iterate();
    game.answer(&Action::ProvideID(2));
    assert_eq!(contents(&game)[before], "You chose to investigate Cy, they are NOT mafia!");
}

#[test]
fn a_tied_vote_by_day_kills_nobody() {
    let mut game = game_of(
        &[GameRole::Mafioso, GameRole::Villager, GameRole::Villager, GameRole::Villager],
        false,
    );
    let step = game.iterate();
    let step = talk_until_vote(&mut game, step);
    assert_eq!(asked(&step), 0);
    game.answer(&Action::ProvideID(1));
    game.answer(&Action::ProvideID(0));
    game.answer(&Action::Abstain);
    let step = game.answer(&Action::Talk("I cannot decide".to_string()));
    assert_eq!(step, Step::PhaseOver);
    assert!(game.actors.iter().all(|a| !a.dead));
    assert_eq!(game.end_result, None);
    let log = contents(&game);
    assert_eq!(
        &log[log.len() - 2..],
        [
            "Di abstained with a comment: I cannot decide",
            "Voting has ended. Nobody in particular received the most votes."
        ]
    );
    assert_eq!(
        game.day_night_count,
        DayNightCount { day_count: 1, night_count: 0, is_night: true }
    );
}

#[test]
fn the_mafia_wins_at_parity() {
    let mut game = game_of(
        &[GameRole::Mafioso, GameRole::Villager, GameRole::Villager],
        true,
    );
    let step = game.iterate();
    talk_until_vote(&mut game, step);
    let step = game.answer(&Action::ProvideID(1));
    assert_eq!(step, Step::GameOver(EndResult::Mafia));
    assert_eq!(game.end_result, Some(EndResult::Mafia));
    let step = game.iterate();
    assert_eq!(step, Step::GameOver(EndResult::Mafia));
    assert_eq!(
        game.context.last().map(|e| e.content.clone()),
        Some("The game has ended.\nThe mafia won--they reached an equal amount of players with town".to_string())
    );
}

#[test]
fn the_verdict_goes_by_the_living() {
    let roles = [GameRole::Mafioso, GameRole::Mafioso, GameRole::Villager, GameRole::Doctor, GameRole::Sheriff];
    let mut game = game_of(&roles, false);
    assert_eq!(game.check_end(), None);
    game.actors[2].dead = true;
    assert_eq!(game.check_end(), Some(EndResult::Mafia));
    game.actors[2].dead = false;
    game.actors[0].dead = true;
    assert_eq!(game.check_end(), None);
    game.actors[1].dead = true;
    assert_eq!(game.check_end(), Some(EndResult::Town));
    game.actors[0].dead = false;
    game.actors[1].dead = false;
    game.actors[3].dead = true;
    game.actors[4].dead = true;
    assert_eq!(game.check_end(), Some(EndResult::Mafia));
    assert_eq!(game.living_ids(Pick::Everyone), [0, 1, 2]);
    assert_eq!(game.living_ids(Pick::Mafia), [0, 1]);
    assert_eq!(game.living_ids(Pick::Town), [2]);
    assert_eq!(game.living_ids(Pick::Doctors), Vec::<u8>::new());
}

#[test]
fn a_result_that_is_set_stays() {
    let mut game = game_of(&[GameRole::Mafioso, GameRole::Villager, GameRole::Villager], false);
    game.end_result = Some(EndResult::Town);
    game.eliminate(1);
    assert_eq!(game.end_result, Some(EndResult::Town));
    assert!(game.actors[1].dead);
    assert_eq!(game.outbox, [OutboundEvent::RosterChanged]);
}

#[test]
fn a_submission_without_commands_asks_again_and_changes_nothing() {
    let mut game = game_of(
        &[GameRole::Mafioso, GameRole::Villager, GameRole::Villager, GameRole::Villager],
        false,
    );
    let first = game.iterate();
    let before = game.clone();
    let again = game.submit("I do not know what to type\n\nhelp");
    assert_eq!(again, Some(first.clone()));
    assert_eq!(game, before);
    let again = game.submit("");
    assert_eq!(again, Some(first));
    assert_eq!(game, before);
}

#[test]
fn a_submission_with_a_command_is_the_answer() {
    let mut game = game_of(
        &[GameRole::Mafioso, GameRole::Villager, GameRole::Villager, GameRole::Villager],
        false,
    );
    game.iterate();
    let mut twin = game.clone();
    let step = game.submit("well\n!talk good morning");
    let expected = twin.answer(&Action::Talk("good morning".to_string()));
    assert_eq!(step, Some(expected));
    assert_eq!(game, twin);
    assert_eq!(game.context.last().map(|e| e.content.clone()), Some("good morning".to_string()));
}

#[test]
fn a_submission_that_names_an_unknown_seat_is_turned_down() {
    let mut game = game_of(
        &[GameRole::Mafioso, GameRole::Villager, GameRole::Villager, GameRole::Villager],
        false,
    );
    game.iterate();
    let before = game.clone();
    assert_eq!(game.submit("!tag 9"), None);
    assert_eq!(game, before);
    assert!(!game.fits(&Action::TagPlayerForComment { id: 9 }));
    assert!(game.fits(&Action::TagPlayerForComment { id: 3 }));
}

#[test]
fn asking_for_the_outlook_twice_gives_the_same() {
    let mut game = game_of(&[GameRole::Mafioso, GameRole::Villager, GameRole::Villager], false);
    assert_eq!(game.outlook(), Step::PhaseOver);
    let step = game.iterate();
    assert_eq!(game.outlook(), step);
    assert_eq!(game.outlook(), step);
}

#[test]
fn night_votes_are_shown_to_a_human_mafioso_only() {
    let mut game = game_of(&[GameRole::Mafioso, GameRole::Villager, GameRole::Villager, GameRole::Villager], true);
    game.playable_actor = Some(0);
    let step = game.iterate();
    talk_until_vote(&mut game, step);
    game.take_events();
    game.answer(&Action::ProvideID(3));
    let events = game.take_events();
    assert_eq!(
        events[..2],
        [
            OutboundEvent::LogAppended(game.context.len() - 2),
            OutboundEvent::FocusActor(0, "Ada voted for Di with no comment.".to_string())
        ]
    );
    let mut game = game_of(&[GameRole::Mafioso, GameRole::Villager, GameRole::Villager, GameRole::Villager], true);
    game.playable_actor = Some(1);
    let step = game.iterate();
    talk_until_vote(&mut game, step);
    game.take_events();
    game.answer(&Action::ProvideID(3));
    assert!(game.take_events().iter().all(|e| !matches!(e, OutboundEvent::FocusActor(..))));
}

#[test]
fn the_last_ballot_and_the_last_comment_of_a_bundle_count() {
    let mut game = game_of(&[GameRole::Mafioso, GameRole::Villager, GameRole::Villager, GameRole::Villager], false);
    let step = game.iterate();
    talk_until_vote(&mut game, step);
    game.answer(&Action::MultiCall(vec![
        Action::ProvideID(1),
        Action::Talk("first".to_string()),
        Action::MultiCall(vec![Action::ProvideID(2), Action::Talk("second".to_string())]),
        Action::Whisper { to: 200, message: "ignored".to_string() },
    ]));
    assert_eq!(game.poll.ballots, [2]);
    assert_eq!(
        game.context.last().map(|e| e.content.clone()),
        Some("Ada voted for Cy with a comment: second".to_string())
    );
    assert!(!game.fits(&Action::ProvideID(4)));
    assert!(game.fits(&Action::TagPlayerForComment { id: 200 }));
}

#[test]
fn the_game_shows_a_seat_the_log_as_it_may_read_it() {
    let mut game = game_of(
        &[GameRole::Mafioso, GameRole::Villager, GameRole::Villager, GameRole::Villager],
        true,
    );
    game.iterate();
    let for_mafia: Vec<String> = game.view_for(0, false).iter().map(|e| e.content.clone()).collect();
    let for_town: Vec<String> = game.view_for(1, true).iter().map(|e| e.content.clone()).collect();
    assert_eq!(for_mafia.len(), 2);
    assert_eq!(
        for_town,
        ["It is now night 0--the first night. Night acting groups will make their move now."]
    );
    assert_eq!(game.view_for(0, false), game.view_for(0, false));
}

#[test]
fn seats_are_found_by_their_id() {
    let mut game = game_of(&[GameRole::Mafioso, GameRole::Villager, GameRole::Doctor], false);
    assert_eq!(game.get_actor_from_id(2).map(|a| a.name.clone()), Some("Cy".to_string()));
    assert_eq!(game.get_actor_from_id(3), None);
    assert_eq!(game.get_actors().len(), 3);
    assert_eq!(game.get_context().len(), 0);
    game.actors[1].dead = true;
    let alive: Vec<u8> = game.get_nondead_actors().iter().map(|a| a.id).collect();
    assert_eq!(alive, [0, 2]);
}

#[test]
fn a_state_built_by_hand_can_be_checked() {
    let mut game = game_of(&[GameRole::Mafioso, GameRole::Villager, GameRole::Doctor], false);
    assert!(game.is_well_formed());
    assert!(game.can_count_on());
    game.iterate();
    assert!(game.is_well_formed());
    let mut broken = game.clone();
    broken.actors[1].id = 7;
    assert!(!broken.is_well_formed());
    let mut broken = game.clone();
    broken.talk.turn_queue.push_back(3);
    assert!(!broken.is_well_formed());
    let mut broken = game.clone();
    broken.playable_actor = Some(3);
    assert!(!broken.is_well_formed());
    let mut broken = game.clone();
    broken.asked = 9;
    assert!(!broken.is_well_formed());
    let mut broken = game.clone();
    broken.day_night_count.day_count = 255;
    assert!(!broken.is_well_formed());
    assert!(!broken.can_count_on());
    let mut broken = game.clone();
    broken.stage = Stage::Investigating;
    assert!(!broken.is_well_formed());
    let mut broken = game.clone();
    broken.last_kill = Some(vec![0, 3]);
    assert!(!broken.is_well_formed());
}

#[test]
fn a_discussion_of_abstainers_does_not_end_by_itself() {
    let mut game = game_of(&[GameRole::Mafioso, GameRole::Villager, GameRole::Villager], false);
    let mut step = game.iterate();
    for turn in 0..50u8 {
        assert_eq!(asked(&step), turn % 3);
        assert!(prompt(&step).contains("3 core messages and 7 extra messages"));
        step = game.answer(&Action::Abstain);
    }
    assert_eq!(game.stage, Stage::Talking);
}
