use mafia_engine::data::channel::Channel;
use mafia_engine::data::extra_data::ExtraData;
use mafia_engine::game::turns::Discussion;

fn talk(seats: Vec<u8>, core: u8, extra: u8) -> Discussion {
    Discussion::new(seats, core, extra, vec![ExtraData::SaidInChannel(Channel::Global)])
}

#[test]
fn a_discussion_begins_with_every_seat_queued() {
    let d = talk(vec![3, 1, 2], 3, 7);
    assert_eq!(d.turn_queue, [3, 1, 2]);
    assert_eq!(d.seats, [3, 1, 2]);
    assert_eq!(d.core_messages, 3);
    assert_eq!(d.extra_messages, 7);
    assert_eq!(d.extra_data, [ExtraData::SaidInChannel(Channel::Global)]);
}

#[test]
fn seats_speak_in_rounds() {
    let mut d = talk(vec![0, 1, 2], 5, 0);
    let mut spoke = Vec::new();
    for _ in 0..7 {
        spoke.push(d.next_speaker());
    }
    assert_eq!(
        spoke,
        [Some(0), Some(1), Some(2), Some(0), Some(1), Some(2), Some(0)]
    );
}

#[test]
fn the_queue_is_refilled_when_the_last_seat_is_called() {
    let mut d = talk(vec![0, 1], 5, 0);
    assert_eq!(d.next_speaker(), Some(0));
    assert_eq!(d.turn_queue, [1]);
    assert_eq!(d.next_speaker(), Some(1));
    assert_eq!(d.turn_queue, [0, 1]);
}

#[test]
fn extra_messages_are_spent_first() {
    let mut d = talk(vec![0], 2, 2);
    d.settle(true);
    assert_eq!((d.core_messages, d.extra_messages), (2, 1));
    d.settle(true);
    assert_eq!((d.core_messages, d.extra_messages), (2, 0));
    d.settle(true);
    assert_eq!((d.core_messages, d.extra_messages), (1, 0));
    d.settle(true);
    assert_eq!((d.core_messages, d.extra_messages), (0, 0));
    d.settle(true);
    assert_eq!((d.core_messages, d.extra_messages), (0, 0));
}

#[test]
fn a_turn_that_used_no_message_costs_nothing() {
    let mut d = talk(vec![0], 2, 2);
    d.settle(false);
    assert_eq!((d.core_messages, d.extra_messages), (2, 2));
}

#[test]
fn a_discussion_without_core_messages_is_over() {
    let mut d = talk(vec![0, 1], 0, 5);
    assert_eq!(d.next_speaker(), None);
    assert_eq!(d.turn_queue, [0, 1]);
}

#[test]
fn a_discussion_without_seats_is_over() {
    let mut d = talk(Vec::new(), 3, 5);
    assert_eq!(d.next_speaker(), None);
}

#[test]
fn a_discussion_ends_after_core_plus_extra_consuming_turns() {
    for (core, extra) in [(1u8, 0u8), (1, 3), (4, 7), (3, 0)] {
        let mut d = talk(vec![0, 1, 2], core, extra);
        let mut consuming = 0u32;
        let mut turns = 0u32;
        while let Some(_) = d.next_speaker() {
            turns += 1;
            let used = turns % 3 != 0;
            if used {
                consuming += 1;
            }
            d.settle(used);
            assert!(consuming <= core as u32 + extra as u32);
            assert!(turns < 1000);
        }
        assert_eq!(consuming, core as u32 + extra as u32);
        assert_eq!((d.core_messages, d.extra_messages), (0, 0));
    }
}

#[test]
fn a_tagged_seat_speaks_next() {
    let mut d = talk(vec![0, 1, 2, 3], 4, 0);
    assert_eq!(d.next_speaker(), Some(0));
    d.tag(3);
    d.settle(true);
    assert_eq!(d.next_speaker(), Some(3));
    assert_eq!(d.next_speaker(), Some(1));
    assert_eq!(d.next_speaker(), Some(2));
    assert_eq!(d.next_speaker(), Some(3));
}

#[test]
fn a_tag_by_the_last_seat_of_a_round_goes_before_the_new_round() {
    let mut d = talk(vec![0, 1], 9, 0);
    assert_eq!(d.next_speaker(), Some(0));
    assert_eq!(d.next_speaker(), Some(1));
    d.tag(1);
    d.settle(true);
    assert_eq!(d.next_speaker(), Some(1));
    assert_eq!(d.next_speaker(), Some(0));
    assert_eq!(d.next_speaker(), Some(1));
}

#[test]
fn the_last_seat_tagged_in_a_turn_speaks_first() {
    let mut d = talk(vec![0, 1, 2], 9, 0);
    assert_eq!(d.next_speaker(), Some(0));
    d.tag(1);
    d.tag(2);
    d.settle(true);
    assert_eq!(d.next_speaker(), Some(2));
    assert_eq!(d.next_speaker(), Some(1));
}

#[test]
fn a_tag_that_spends_the_last_core_message_calls_nobody() {
    let mut d = talk(vec![0, 1], 1, 0);
    assert_eq!(d.next_speaker(), Some(0));
    d.tag(1);
    d.settle(true);
    assert_eq!(d.next_speaker(), None);
}
