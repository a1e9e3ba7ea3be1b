use mafia_engine::actor::{ActorKind, BaseActor};
use mafia_engine::data::roles::{GameRole, RoleAlignment};
use mafia_engine::game::EndResult;
use mafia_engine::prompts::general::{
    abstained_in_discussion, actor_voted, actor_was_killed, build_actor_list, build_role_list,
    day_time, game_end, introduce_you, night_time, public_whisper_notice, tagged_for_comment,
    time_to_vote, utter_beginning, voting_begins, voting_ends, whispered, whisperer,
    your_turn_to_talk,
};
use mafia_engine::prompts::specific::doctor::{
    pick_to_protect, target_protected, you_chose_to_protect,
};
use mafia_engine::prompts::specific::mafia::{build_mafia_list, mafia_discussion_begin};
use mafia_engine::prompts::specific::sheriff::{investigate_result, pick_to_investigate};

fn seat(id: u8, name: &str, role: GameRole) -> BaseActor {
    BaseActor {
        dead: false,
        name: name.to_string(),
        id,
        kind: ActorKind::Real,
        extra_data: Vec::new(),
        role,
    }
}

#[test]
fn roles_have_names_alignments_and_descriptions() {
    assert_eq!(GameRole::Villager.name(), "Villager");
    assert_eq!(GameRole::Mafioso.name(), "Mafioso");
    assert_eq!(GameRole::Doctor.name(), "Doctor");
    assert_eq!(GameRole::Sheriff.name(), "Sheriff");
    assert_eq!(GameRole::Mafioso.alignment(), RoleAlignment::Mafia);
    assert_eq!(GameRole::Villager.alignment(), RoleAlignment::Town);
    assert_eq!(GameRole::Doctor.alignment(), RoleAlignment::Town);
    assert_eq!(GameRole::Sheriff.alignment(), RoleAlignment::Town);
    assert_eq!(
        GameRole::Villager.description(),
        "Discuss with others during the day and figure out the mafia."
    );
    assert_eq!(
        GameRole::Mafioso.description(),
        "Discuss with fellow mafia at night to plan and vote a player to kill."
    );
    assert_eq!(
        GameRole::Doctor.description(),
        "At night, pick a person to protect from being killed."
    );
    assert_eq!(
        GameRole::Sheriff.description(),
        "At night, investigate a player and see if they are mafia."
    );
}

#[test]
fn the_opening_text_names_both_numbers() {
    let text = utter_beginning(9, 7);
    assert!(text.starts_with("You are playing a game of Mafia with 9 players."));
    assert!(text.contains("and 7 extra messages that are spent first"));
}

#[test]
fn a_seat_is_introduced_to_itself() {
    assert_eq!(
        introduce_you(&seat(3, "Ada", GameRole::Doctor)),
        "You are Ada (ID 3) with the role of Doctor: At night, pick a person to protect from being killed."
    );
}

#[test]
fn the_role_list_has_a_line_for_each_role() {
    assert_eq!(build_role_list(&[]), "The roles in the game are:");
    assert_eq!(
        build_role_list(&[&GameRole::Doctor, &GameRole::Villager]),
        "The roles in the game are:\nDoctor: At night, pick a person to protect from being killed.\nVillager: Discuss with others during the day and figure out the mafia."
    );
}

#[test]
fn the_actor_list_has_a_line_for_each_seat() {
    assert_eq!(build_actor_list(&[]), "The players in the game are:");
    assert_eq!(
        build_actor_list(&[seat(0, "Ada", GameRole::Villager), seat(1, "Bob", GameRole::Mafioso)]),
        "The players in the game are:\nAda (ID 0)\nBob (ID 1)"
    );
}

#[test]
fn the_mafia_list_has_a_line_for_each_mafioso() {
    let bob = seat(1, "Bob", GameRole::Mafioso);
    let cy = seat(200, "Cy", GameRole::Mafioso);
    assert_eq!(build_mafia_list(&[]), "As a mafia, you know your fellow mafia:");
    assert_eq!(
        build_mafia_list(&[&bob, &cy]),
        "As a mafia, you know your fellow mafia:\nBob (ID 1)\nCy (ID 200)"
    );
}

#[test]
fn a_death_is_announced_with_the_role() {
    assert_eq!(
        actor_was_killed(&seat(2, "Cy", GameRole::Sheriff)),
        "Cy was killed! They were a Sheriff."
    );
}

#[test]
fn the_first_day_and_night_are_called_the_first() {
    assert_eq!(
        day_time(0),
        "It is now day 0--the first day. After discussion ends, voting will begin--remember that you cannot vote during the discussion."
    );
    assert_eq!(
        day_time(12),
        "It is now day 12. After discussion ends, voting will begin--remember that you cannot vote during the discussion."
    );
    assert_eq!(
        night_time(0),
        "It is now night 0--the first night. Night acting groups will make their move now."
    );
    assert_eq!(
        night_time(3),
        "It is now night 3. Night acting groups will make their move now."
    );
}

#[test]
fn the_discussion_prompt_reports_the_budgets() {
    assert_eq!(
        your_turn_to_talk(&seat(1, "Bob", GameRole::Mafioso), 4, 7),
        "It's now your turn to talk. There are currently 4 core messages and 7 extra messages. Remember: you are Bob, a Mafioso."
    );
}

#[test]
fn fixed_texts_are_as_written() {
    assert_eq!(voting_begins(), "Voting has begun.");
    assert_eq!(
        time_to_vote(),
        "It's now your turn to vote. You can abstain or use the Talk tool to leave a comment or explanation if you wish."
    );
    assert_eq!(
        pick_to_protect(),
        "Doctor, it's now your turn to pick a player to protect."
    );
    assert_eq!(
        pick_to_investigate(),
        "Sheriff, it's now your turn to pick a player to investigate."
    );
    assert!(mafia_discussion_begin().starts_with("Mafia, it's now your turn to discuss."));
    assert!(mafia_discussion_begin().ends_with("Remember that you cannot vote during the discussion."));
}

#[test]
fn votes_are_narrated_in_four_ways() {
    let ada = seat(0, "Ada", GameRole::Villager);
    let bob = seat(1, "Bob", GameRole::Mafioso);
    assert_eq!(
        actor_voted(&ada, Some(&bob), Some("sus".to_string())),
        "Ada voted for Bob with a comment: sus"
    );
    assert_eq!(
        actor_voted(&ada, None, Some("no idea".to_string())),
        "Ada abstained with a comment: no idea"
    );
    assert_eq!(actor_voted(&ada, Some(&bob), None), "Ada voted for Bob with no comment.");
    assert_eq!(actor_voted(&ada, None, None), "Ada abstained with no comment.");
}

#[test]
fn the_end_of_a_vote_is_announced_in_three_ways() {
    let bob = seat(1, "Bob", GameRole::Mafioso);
    assert_eq!(
        voting_ends(Some(&bob), true),
        "Voting has ended. Bob received the most votes. They were a Mafioso."
    );
    assert_eq!(voting_ends(Some(&bob), false), "Voting has ended. Bob received the most votes.");
    assert_eq!(
        voting_ends(None, true),
        "Voting has ended. Nobody in particular received the most votes."
    );
    assert_eq!(
        voting_ends(None, false),
        "Voting has ended. Nobody in particular received the most votes."
    );
}

#[test]
fn discussion_narration_is_as_written() {
    let ada = seat(0, "Ada", GameRole::Villager);
    let bob = seat(1, "Bob", GameRole::Mafioso);
    assert_eq!(abstained_in_discussion(&ada), "Ada abstained");
    assert_eq!(tagged_for_comment(&ada, &bob), "Ada tagged Bob for comment.");
    assert_eq!(public_whisper_notice(&ada, &bob), "Ada whispered to Bob");
    assert_eq!(whisperer(&bob, "psst"), "You whispered to Bob: psst");
    assert_eq!(whispered(&ada, "psst"), "Ada (ID 0) whispered to you: psst");
}

#[test]
fn the_end_of_the_game_names_the_winner() {
    assert_eq!(
        game_end(&EndResult::Mafia),
        "The game has ended.\nThe mafia won--they reached an equal amount of players with town"
    );
    assert_eq!(
        game_end(&EndResult::Town),
        "The game has ended.\nThe town won--all mafia were eliminated"
    );
}

#[test]
fn night_roles_are_told_what_they_did() {
    let ada = seat(0, "Ada", GameRole::Villager);
    let bob = seat(1, "Bob", GameRole::Mafioso);
    assert_eq!(you_chose_to_protect(&ada), "You chose to protect Ada.");
    assert_eq!(
        target_protected(&ada),
        "An attempt was made on Ada's life... but they were protected by a doctor!"
    );
    assert_eq!(investigate_result(&bob), "You chose to investigate Bob, they are mafia!");
    assert_eq!(investigate_result(&ada), "You chose to investigate Ada, they are NOT mafia!");
}
