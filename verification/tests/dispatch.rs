use mafia_engine::actor::{ActorKind, BaseActor};
use mafia_engine::context_entry::{ContextEntry, SayerType};
use mafia_engine::data::action::Action;
use mafia_engine::data::channel::Channel;
use mafia_engine::data::extra_data::ExtraData;
use mafia_engine::data::roles::GameRole;
use mafia_engine::game::turns::Discussion;
use mafia_engine::game::{Game, OutboundEvent, Stage};

fn seat(id: u8, name: &str, role: GameRole) -> BaseActor {
    BaseActor {
        dead: false,
        name: name.to_string(),
        id,
        kind: ActorKind::Real,
        extra_data: Vec::new(),
        role,
    }
}

fn talking_game() -> Game {
    let mut game = Game::new(None);
    game.actors = vec![
        seat(0, "Ada", GameRole::Villager),
        seat(1, "Bob", GameRole::Mafioso),
        seat(2, "Cy", GameRole::Doctor),
    ];
    game.stage = Stage::Talking;
    game.talk = Discussion::new(
        vec![0, 1, 2],
        3,
        7,
        vec![ExtraData::SaidInChannel(Channel::Global)],
    );
    game
}

fn global() -> Vec<ExtraData> {
    vec![ExtraData::SaidInChannel(Channel::Global)]
}

fn system(content: &str, tags: Vec<ExtraData>) -> ContextEntry {
    ContextEntry { content: content.to_string(), sayer_type: SayerType::System, extra_data: tags }
}

#[test]
fn talking_appends_what_was_said_and_uses_a_message() {
    let mut game = talking_game();
    let mut used = false;
    let mut focus = String::new();
    game.handle_action(0, &Action::Talk("hello".to_string()), &mut used, &mut focus);
    assert_eq!(
        game.context,
        [ContextEntry {
            content: "hello".to_string(),
            sayer_type: SayerType::Actor(0),
            extra_data: global()
        }]
    );
    assert!(used);
    assert_eq!(focus, "hello\n");
    assert_eq!(game.outbox, [OutboundEvent::LogAppended(0)]);
}

#[test]
fn abstaining_is_narrated_and_uses_no_message() {
    let mut game = talking_game();
    let mut used = false;
    let mut focus = String::new();
    game.handle_action(1, &Action::Abstain, &mut used, &mut focus);
    assert_eq!(game.context, [system("Bob abstained", global())]);
    assert!(!used);
    assert_eq!(focus, "*Abstained*\n");
}

#[test]
fn a_whisper_writes_three_entries() {
    let mut game = talking_game();
    let mut used = false;
    let mut focus = String::new();
    game.handle_action(
        0,
        &Action::Whisper { to: 2, message: "trust me".to_string() },
        &mut used,
        &mut focus,
    );
    assert_eq!(
        game.context,
        [
            system(
                "Ada whispered to Cy",
                vec![
                    ExtraData::SaidInChannel(Channel::Global),
                    ExtraData::WhisperMetadata { from: 0, to: 2 }
                ]
            ),
            system(
                "You whispered to Cy: trust me",
                vec![ExtraData::SaidInChannel(Channel::ToSelf(0))]
            ),
            system(
                "Ada (ID 0) whispered to you: trust me",
                vec![ExtraData::SaidInChannel(Channel::ToSelf(2))]
            ),
        ]
    );
    assert!(used);
    assert_eq!(focus, "*Whispered to Cy*\n");
    assert_eq!(
        game.outbox,
        [
            OutboundEvent::LogAppended(0),
            OutboundEvent::LogAppended(1),
            OutboundEvent::LogAppended(2)
        ]
    );
}

#[test]
fn a_whisper_is_read_by_the_right_seats() {
    let mut game = talking_game();
    let mut used = false;
    let mut focus = String::new();
    game.handle_action(
        0,
        &Action::Whisper { to: 2, message: "trust me".to_string() },
        &mut used,
        &mut focus,
    );
    let readers = |entry: &ContextEntry| -> Vec<u8> {
        game.actors.iter().filter(|a| entry.available_for_actor(a, true)).map(|a| a.id).collect()
    };
    assert_eq!(readers(&game.context[0]), [1]);
    assert_eq!(readers(&game.context[1]), [0]);
    assert_eq!(readers(&game.context[2]), [2]);
}

#[test]
fn a_tag_is_narrated_and_calls_the_seat_up() {
    let mut game = talking_game();
    let mut used = false;
    let mut focus = String::new();
    game.handle_action(0, &Action::TagPlayerForComment { id: 2 }, &mut used, &mut focus);
    assert_eq!(game.context, [system("Ada tagged Cy for comment.", global())]);
    assert_eq!(game.talk.turn_queue, [2, 0, 1, 2]);
    assert!(used);
    assert_eq!(focus, "*Tagged Cy*\n");
}

#[test]
fn an_id_provided_in_a_discussion_is_dropped() {
    let mut game = talking_game();
    let mut used = false;
    let mut focus = String::new();
    game.handle_action(0, &Action::ProvideID(1), &mut used, &mut focus);
    assert_eq!(game.context, Vec::<ContextEntry>::new());
    assert_eq!(game.outbox, Vec::<OutboundEvent>::new());
    assert!(!used);
    assert_eq!(focus, "");
}

#[test]
fn a_bundle_is_carried_out_in_order_and_in_full() {
    let mut game = talking_game();
    let mut used = false;
    let mut focus = String::new();
    let action = Action::MultiCall(vec![
        Action::Talk("one".to_string()),
        Action::MultiCall(vec![Action::Abstain, Action::TagPlayerForComment { id: 1 }]),
        Action::ProvideID(2),
        Action::Talk("two".to_string()),
    ]);
    game.handle_action(2, &action, &mut used, &mut focus);
    let contents: Vec<&str> = game.context.iter().map(|e| e.content.as_str()).collect();
    assert_eq!(contents, ["one", "Cy abstained", "Cy tagged Bob for comment.", "two"]);
    assert_eq!(focus, "one\n*Abstained*\n*Tagged Bob*\ntwo\n");
    assert!(used);
    assert_eq!(game.talk.turn_queue, [1, 0, 1, 2]);
}

#[test]
fn an_empty_bundle_does_nothing() {
    let mut game = talking_game();
    let mut used = false;
    let mut focus = String::new();
    game.handle_action(2, &Action::MultiCall(Vec::new()), &mut used, &mut focus);
    assert_eq!(game.context, Vec::<ContextEntry>::new());
    assert!(!used);
    assert_eq!(focus, "");
}

#[test]
fn leaves_flatten_bundles_in_order() {
    let action = Action::MultiCall(vec![
        Action::Abstain,
        Action::MultiCall(vec![
            Action::ProvideID(1),
            Action::MultiCall(vec![Action::Talk("deep".to_string())]),
        ]),
        Action::TagPlayerForComment { id: 2 },
    ]);
    assert_eq!(
        action.leaves(),
        [
            Action::Abstain,
            Action::ProvideID(1),
            Action::Talk("deep".to_string()),
            Action::TagPlayerForComment { id: 2 }
        ]
    );
    assert_eq!(Action::Talk("x".to_string()).leaves(), [Action::Talk("x".to_string())]);
    assert_eq!(Action::MultiCall(Vec::new()).leaves(), Vec::<Action>::new());
    assert_eq!(action.duplicate(), action);
    assert_eq!(action.clone(), action);
}

#[test]
fn a_turn_shows_the_renderer_what_the_seat_did_and_settles() {
    let mut game = talking_game();
    game.handle_and_focus(0, &Action::Talk("  hello  ".to_string()));
    assert_eq!(
        game.outbox,
        [OutboundEvent::LogAppended(0), OutboundEvent::FocusActor(0, "hello".to_string())]
    );
    assert_eq!((game.talk.core_messages, game.talk.extra_messages), (3, 6));
    game.handle_and_focus(1, &Action::Abstain);
    assert_eq!(game.outbox[3], OutboundEvent::FocusActor(1, "*Abstained*".to_string()));
    assert_eq!((game.talk.core_messages, game.talk.extra_messages), (3, 6));
    let before = game.outbox.len();
    game.handle_and_focus(1, &Action::ProvideID(0));
    assert_eq!(game.outbox.len(), before);
}

#[test]
fn actions_that_name_unknown_seats_do_not_fit() {
    let game = talking_game();
    assert!(game.fits_discussion(&Action::Whisper { to: 2, message: String::new() }));
    assert!(!game.fits_discussion(&Action::Whisper { to: 3, message: String::new() }));
    assert!(!game.fits_discussion(&Action::TagPlayerForComment { id: 9 }));
    assert!(game.fits_discussion(&Action::ProvideID(9)));
    assert!(!game.fits_discussion(&Action::MultiCall(vec![
        Action::Abstain,
        Action::MultiCall(vec![Action::TagPlayerForComment { id: 3 }])
    ])));
}

#[test]
fn events_are_handed_over_once() {
    let mut game = talking_game();
    game.handle_and_focus(0, &Action::Talk("a".to_string()));
    let events = game.take_events();
    assert_eq!(
        events,
        [OutboundEvent::LogAppended(0), OutboundEvent::FocusActor(0, "a".to_string())]
    );
    assert_eq!(game.take_events(), Vec::<OutboundEvent>::new());
    assert_eq!(game.context.len(), 1);
}
