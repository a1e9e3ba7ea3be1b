//! The poll: ballots, the tally and the narration of each vote.

use vstd::prelude::*;

verus! {

/// How many of the ballots name the seat `id`.
pub open spec fn ballots_for(votes: Seq<u8>, id: u8) -> nat
    decreases votes.len(),
{
    if votes.len() == 0 {
        0
    } else {
        ballots_for(votes.drop_last(), id) + if votes.last() == id {
            1nat
        } else {
            0nat
        }
    }
}

/// A seat wins a poll if it has a ballot and strictly more ballots than
/// every other seat.
pub open spec fn wins_poll(votes: Seq<u8>, winner: u8) -> bool {
    &&& ballots_for(votes, winner) > 0
    &&& forall|id: u8| id != winner ==> ballots_for(votes, id) < ballots_for(votes, winner)
}

/// The seat that a poll eliminates, if it eliminates one.
pub open spec fn voted_out(votes: Seq<u8>) -> Option<u8> {
    if exists|winner: u8| wins_poll(votes, winner) {
        Some(choose|winner: u8| wins_poll(votes, winner))
    } else {
        None
    }
}

/// No poll has two winners.
pub proof fn law_poll_has_one_winner(votes: Seq<u8>, first: u8, second: u8)
    requires
        wins_poll(votes, first),
        wins_poll(votes, second),
    ensures
        first == second,
{
}

/// A tie at the top has no winner: where two seats share the highest number
/// of ballots, the poll eliminates nobody.
pub proof fn law_tie_has_no_winner(votes: Seq<u8>, first: u8, second: u8)
    requires
        first != second,
        ballots_for(votes, first) == ballots_for(votes, second),
        forall|id: u8| ballots_for(votes, id) <= ballots_for(votes, first),
    ensures
        forall|winner: u8| !wins_poll(votes, winner),
        voted_out(votes) is None,
{
    assert forall|winner: u8| !wins_poll(votes, winner) by {
        if wins_poll(votes, winner) {
            if winner == first {
                assert(ballots_for(votes, second) < ballots_for(votes, winner));
            } else {
                assert(ballots_for(votes, first) < ballots_for(votes, winner));
            }
        }
    }
}

/// A poll without ballots has no winner.
pub proof fn law_empty_poll_has_no_winner(winner: u8)
    ensures
        !wins_poll(Seq::<u8>::empty(), winner),
{
}

/// A seat with a ballot is named on one of the ballots.
pub proof fn lemma_ballot_is_cast(votes: Seq<u8>, id: u8)
    requires
        ballots_for(votes, id) > 0,
    ensures
        exists|i: int| 0 <= i < votes.len() && votes[i] == id,
    decreases votes.len(),
{
    if votes.last() == id {
        assert(votes[votes.len() - 1] == id);
    } else {
        lemma_ballot_is_cast(votes.drop_last(), id);
        let i = choose|i: int| 0 <= i < votes.drop_last().len() && votes.drop_last()[i] == id;
        assert(votes[i] == id);
    }
}

proof fn lemma_ballots_bounded(votes: Seq<u8>, id: u8)
    ensures
        ballots_for(votes, id) <= votes.len(),
    decreases votes.len(),
{
    if votes.len() > 0 {
        lemma_ballots_bounded(votes.drop_last(), id);
    }
}

/// The seat that a poll eliminates: the one seat with the most ballots. A
/// tie at the top, or a poll without ballots, eliminates nobody.
pub fn get_voted_out(votes: &[u8]) -> (chosen: Option<u8>)
    ensures
        match chosen {
            Some(winner) => wins_poll(votes@, winner),
            None => forall|id: u8| !wins_poll(votes@, id),
        },
        chosen == voted_out(votes@),
{
    let mut counts: Vec<usize> = Vec::new();
    let mut k: usize = 0;
    while k < 256
        invariant
            k <= 256,
            counts.len() == k,
            forall|j: int| 0 <= j < k ==> counts@[j] == 0,
        decreases 256 - k,
    {
        counts.push(0);
        k = k + 1;
    }
    let mut i: usize = 0;
    assert(votes@.take(0) == Seq::<u8>::empty());
    while i < votes.len()
        invariant
            i <= votes.len(),
            counts.len() == 256,
            forall|id: u8| counts@[id as int] == #[trigger] ballots_for(votes@.take(i as int), id),
        decreases votes.len() - i,
    {
        let vote = votes[i];
        let ghost before = counts@;
        proof {
            lemma_ballots_bounded(votes@.take(i as int), vote);
            assert(votes@.take(i + 1).drop_last() == votes@.take(i as int));
        }
        let seen = counts[vote as usize];
        counts.set(vote as usize, seen + 1);
        assert forall|id: u8| counts@[id as int] == #[trigger] ballots_for(
            votes@.take(i + 1),
            id,
        ) by {
            assert(before[id as int] == ballots_for(votes@.take(i as int), id));
        }
        i = i + 1;
    }
    assert(votes@.take(votes.len() as int) == votes@);
    let mut best: u8 = 0;
    let mut best_count: usize = counts[0];
    let mut tied: bool = false;
    let mut id: usize = 1;
    while id < 256
        invariant
            1 <= id <= 256,
            counts.len() == 256,
            best < id,
            best_count == counts@[best as int],
            forall|j: int| 0 <= j < id ==> counts@[j] <= best_count,
            tied <==> exists|j: int| 0 <= j < id && j != best && counts@[j] == best_count,
        decreases 256 - id,
    {
        let count = counts[id];
        if count > best_count {
            best = id as u8;
            best_count = count;
            tied = false;
        } else if count == best_count {
            tied = true;
        }
        id = id + 1;
    }
    if best_count > 0 && !tied {
        assert forall|other: u8| other != best implies ballots_for(votes@, other) < ballots_for(
            votes@,
            best,
        ) by {
            assert(counts@[other as int] <= best_count);
        }
        assert(wins_poll(votes@, best));
        assert(voted_out(votes@) == Some(best)) by {
            let picked = choose|winner: u8| wins_poll(votes@, winner);
            law_poll_has_one_winner(votes@, picked, best);
        }
        Some(best)
    } else {
        assert forall|w: u8| !wins_poll(votes@, w) by {
            if wins_poll(votes@, w) {
                assert(counts@[w as int] <= best_count);
                if w != best {
                    assert(ballots_for(votes@, best) < ballots_for(votes@, w));
                } else {
                    let j = choose|j: int| 0 <= j < 256 && j != best && counts@[j] == best_count;
                    assert(ballots_for(votes@, j as u8) < ballots_for(votes@, w));
                }
            }
        }
        None
    }
}

} // verus!
