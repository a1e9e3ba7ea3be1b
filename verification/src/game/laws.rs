//! What holds of every game, whatever the seats do: the log only grows.

use crate::actor::ActorView;
use crate::data::action::ActionView;
use crate::game::discussion::TurnView;
use crate::game::roster::{seat_ids, verdict, Pick};
use crate::game::{EndResult, GameView, Stage};
use vstd::prelude::*;

verus! {

impl GameView {
    /// Whether the log of `later` begins with the whole log of this game,
    /// entry for entry.
    pub open spec fn grows_into(self, later: GameView) -> bool {
        self.log.len() <= later.log.len() && later.log.take(self.log.len() as int) == self.log
    }
}

proof fn lemma_grows_on(a: GameView, b: GameView, c: GameView)
    requires
        a.grows_into(b),
        b.grows_into(c),
    ensures
        a.grows_into(c),
{
    assert(c.log.take(a.log.len() as int) =~= b.log.take(a.log.len() as int));
}

proof fn lemma_same_log_grows(game: GameView, other: GameView)
    requires
        other.log == game.log,
    ensures
        game.grows_into(other),
{
    assert(other.log.take(game.log.len() as int) =~= game.log);
}

proof fn lemma_mourned_grows(game: GameView, killed: Seq<u8>)
    ensures
        game.grows_into(game.mourned(killed)),
    decreases killed.len(),
{
    if killed.len() == 0 {
        lemma_same_log_grows(game, game);
    } else {
        let before = game.mourned(killed.drop_last());
        lemma_mourned_grows(game, killed.drop_last());
        let after = game.mourned(killed);
        assert(before.grows_into(after)) by {
            assert(after.log.take(before.log.len() as int) =~= before.log);
        }
        lemma_grows_on(game, before, after);
    }
}

proof fn lemma_begun_grows(game: GameView)
    ensures
        game.grows_into(game.begun()),
{
    reveal(GameView::begun);
    reveal(GameView::announced);
    let announced = game.announced();
    if game.clock.is_night {
        assert(announced.log.take(game.log.len() as int) =~= game.log);
    } else {
        let mourned = match game.last_kill {
            Some(killed) => game.mourned(killed),
            None => game,
        };
        match game.last_kill {
            Some(killed) => {
                lemma_mourned_grows(game, killed);
            },
            None => {
                lemma_same_log_grows(game, game);
            },
        }
        assert(mourned.grows_into(announced)) by {
            assert(announced.log.take(mourned.log.len() as int) =~= mourned.log);
        }
        lemma_grows_on(game, mourned, announced);
    }
    lemma_same_log_grows(announced, game.begun());
    lemma_grows_on(game, announced, game.begun());
}

proof fn lemma_concluded_grows(game: GameView)
    ensures
        game.grows_into(game.concluded()),
{
    reveal(GameView::concluded);
    reveal(GameView::tallied);
    let tallied = game.tallied();
    assert(tallied.log.take(game.log.len() as int) =~= game.log);
    lemma_same_log_grows(tallied, game.concluded());
    lemma_grows_on(game, tallied, game.concluded());
}

proof fn lemma_from_poll_grows(game: GameView)
    ensures
        game.grows_into(game.from_poll()),
{
    reveal(GameView::from_poll);
    if game.poll.next < game.poll.voters.len() {
        lemma_same_log_grows(game, game.from_poll());
    } else {
        lemma_concluded_grows(game);
    }
}

proof fn lemma_from_talk_grows(game: GameView)
    ensures
        game.grows_into(game.from_talk()),
{
    reveal(GameView::from_talk);
    reveal(GameView::poll_opened);
    match game.talk.speaker() {
        Some(id) => {
            lemma_same_log_grows(game, game.from_talk());
        },
        None => {
            let opened = game.poll_opened();
            assert(game.grows_into(opened)) by {
                assert(opened.log.take(game.log.len() as int) =~= game.log);
            }
            lemma_from_poll_grows(opened);
            lemma_grows_on(game, opened, opened.from_poll());
        },
    }
}

proof fn lemma_from_doctors_grows(game: GameView)
    ensures
        game.grows_into(game.from_doctors()),
{
    reveal(GameView::from_doctors);
    reveal(GameView::mafia_gathered);
    if game.doctors.len() > 0 {
        lemma_same_log_grows(game, game.from_doctors());
    } else {
        let gathered = game.mafia_gathered();
        assert(game.grows_into(gathered)) by {
            assert(gathered.log.take(game.log.len() as int) =~= game.log);
        }
        lemma_from_talk_grows(gathered);
        lemma_grows_on(game, gathered, gathered.from_talk());
    }
}

proof fn lemma_from_sheriffs_grows(game: GameView)
    ensures
        game.grows_into(game.from_sheriffs()),
{
    reveal(GameView::from_sheriffs);
    if game.sheriffs.len() > 0 {
        lemma_same_log_grows(game, game.from_sheriffs());
    } else {
        let next = GameView { stage: Stage::Protecting, ..game };
        lemma_same_log_grows(game, next);
        lemma_from_doctors_grows(next);
        lemma_grows_on(game, next, next.from_doctors());
    }
}

proof fn lemma_dispatched_all_grows(
    game: GameView,
    turn: TurnView,
    actor: u8,
    leaves: Seq<ActionView>,
)
    ensures
        game.grows_into(game.dispatched_all(turn, actor, leaves).0),
    decreases leaves.len(),
{
    if leaves.len() == 0 {
        lemma_same_log_grows(game, game);
    } else {
        let (before, so_far) = game.dispatched_all(turn, actor, leaves.drop_last());
        lemma_dispatched_all_grows(game, turn, actor, leaves.drop_last());
        let after = before.dispatched(so_far, actor, leaves.last()).0;
        assert(before.grows_into(after)) by {
            assert(after.log.take(before.log.len() as int) =~= before.log);
        }
        lemma_grows_on(game, before, after);
    }
}

proof fn lemma_talked_grows(game: GameView, actor: u8, action: ActionView)
    ensures
        game.grows_into(game.talked(actor, action)),
{
    reveal(GameView::talked);
    let done = game.dispatched_all(TurnView::fresh(), actor, action.leaves()).0;
    lemma_dispatched_all_grows(game, TurnView::fresh(), actor, action.leaves());
    lemma_same_log_grows(done, game.talked(actor, action));
    lemma_grows_on(game, done, game.talked(actor, action));
}

/// The log only grows. Whatever phase begins and whatever a seat answers,
/// the entries that were in the log are still there afterwards, unchanged
/// and in their places, and new entries stand behind them.
pub proof fn law_log_only_grows(game: GameView, action: ActionView)
    ensures
        game.grows_into(game.iterated()),
        game.grows_into(game.answered(action)),
{
    reveal(GameView::iterated);
    reveal(GameView::closed);
    reveal(GameView::answered);
    reveal(GameView::investigated);
    reveal(GameView::protected);
    reveal(GameView::voted);
    match game.end_result {
        Some(result) => {
            assert(game.iterated().log.take(game.log.len() as int) =~= game.log);
        },
        None => {
            lemma_begun_grows(game);
            if game.clock.is_night {
                lemma_from_sheriffs_grows(game.begun());
                lemma_grows_on(game, game.begun(), game.begun().from_sheriffs());
            } else {
                lemma_from_talk_grows(game.begun());
                lemma_grows_on(game, game.begun(), game.begun().from_talk());
            }
        },
    }
    let heard = GameView { waiting: false, ..game };
    lemma_same_log_grows(game, heard);
    match game.stage {
        Stage::Idle => {
            lemma_same_log_grows(game, game);
        },
        Stage::Investigating => {
            let told = heard.investigated(action);
            assert(heard.grows_into(told)) by {
                assert(told.log.take(heard.log.len() as int) =~= heard.log);
            }
            lemma_from_sheriffs_grows(told);
            lemma_grows_on(heard, told, told.from_sheriffs());
            lemma_grows_on(game, heard, told.from_sheriffs());
        },
        Stage::Protecting => {
            let told = heard.protected(action);
            assert(heard.grows_into(told)) by {
                assert(told.log.take(heard.log.len() as int) =~= heard.log);
            }
            lemma_from_doctors_grows(told);
            lemma_grows_on(heard, told, told.from_doctors());
            lemma_grows_on(game, heard, told.from_doctors());
        },
        Stage::Talking => {
            let told = heard.talked(game.asked, action);
            lemma_talked_grows(heard, game.asked, action);
            lemma_from_talk_grows(told);
            lemma_grows_on(heard, told, told.from_talk());
            lemma_grows_on(game, heard, told.from_talk());
        },
        Stage::Polling => {
            let told = heard.voted(action);
            assert(heard.grows_into(told)) by {
                assert(told.log.take(heard.log.len() as int) =~= heard.log);
            }
            lemma_from_poll_grows(told);
            lemma_grows_on(heard, told, told.from_poll());
            lemma_grows_on(game, heard, told.from_poll());
        },
    }
}

/// Who has won goes by the living alone: the mafia has won exactly if it is
/// no smaller than the town, and the town exactly if no mafia is left while
/// some of the town is; else nobody has won yet.
pub proof fn law_verdict(actors: Seq<ActorView>)
    ensures
        verdict(actors) == Some(EndResult::Mafia) <==> seat_ids(actors, Pick::Mafia).len()
            >= seat_ids(actors, Pick::Town).len(),
        verdict(actors) == Some(EndResult::Town) <==> seat_ids(actors, Pick::Mafia).len() == 0
            && seat_ids(actors, Pick::Town).len() > 0,
{
}

/// A seat that is eliminated while the game is undecided decides the game
/// if it leaves no mafia alive, or leaves the mafia no smaller than the town.
pub proof fn law_elimination_is_judged_at_once(game: GameView, id: u8)
    requires
        game.end_result is None,
    ensures
        game.eliminated(id).end_result == verdict(game.eliminated(id).actors),
{
}

} // verus!
