use mafia_engine::game::voting::get_voted_out;

#[test]
fn two_ballots_against_one_elect_the_first() {
    assert_eq!(get_voted_out(&[0, 0, 1]), Some(0));
}

#[test]
fn a_tie_elects_nobody() {
    assert_eq!(get_voted_out(&[0, 1]), None);
}

#[test]
fn no_ballots_elect_nobody() {
    assert_eq!(get_voted_out(&[]), None);
}

#[test]
fn a_tie_at_the_top_elects_nobody() {
    assert_eq!(get_voted_out(&[0, 0, 1, 1]), None);
}

#[test]
fn the_highest_id_can_win() {
    assert_eq!(get_voted_out(&[255, 3, 255]), Some(255));
}
