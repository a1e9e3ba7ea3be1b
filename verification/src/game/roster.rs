//! Who is alive, who plays which part at night, and who has won.

use crate::actor::{ActorView, BaseActor};
use crate::data::extra_data::ExtraData;
use crate::data::roles::{GameRole, RoleAlignment};
use crate::game::{EndResult, EventView, Game, GameView, OutboundEvent};
use vstd::prelude::*;

verus! {

/// A part of the living seats.
#[derive(Debug, Clone, Copy, PartialEq, Eq, Structural)]
pub enum Pick {
    Everyone,
    Mafia,
    Town,
    Sheriffs,
    Doctors,
}

impl Pick {
    /// Whether a seat belongs to the part: it is alive and has the role or
    /// the alignment asked for.
    pub open spec fn wants(self, actor: ActorView) -> bool {
        !actor.dead && match self {
            Pick::Everyone => true,
            Pick::Mafia => actor.role.is_mafia(),
            Pick::Town => !actor.role.is_mafia(),
            Pick::Sheriffs => actor.role == GameRole::Sheriff,
            Pick::Doctors => actor.role == GameRole::Doctor,
        }
    }

    pub fn is_wanted(&self, actor: &BaseActor) -> (wanted: bool)
        ensures
            wanted == self.wants(actor@),
    {
        if actor.dead {
            return false;
        }
        let is_mafia = match actor.role.alignment() {
            RoleAlignment::Mafia => true,
            _ => false,
        };
        match self {
            Pick::Everyone => true,
            Pick::Mafia => is_mafia,
            Pick::Town => !is_mafia,
            Pick::Sheriffs => match actor.role {
                GameRole::Sheriff => true,
                _ => false,
            },
            Pick::Doctors => match actor.role {
                GameRole::Doctor => true,
                _ => false,
            },
        }
    }
}

/// The ids of the seats of a roster that belong to a part, in the order of
/// the roster.
pub open spec fn seat_ids(actors: Seq<ActorView>, pick: Pick) -> Seq<u8>
    decreases actors.len(),
{
    if actors.len() == 0 {
        Seq::empty()
    } else if pick.wants(actors.last()) {
        seat_ids(actors.drop_last(), pick).push(actors.last().id)
    } else {
        seat_ids(actors.drop_last(), pick)
    }
}

pub proof fn lemma_seat_ids_are_seats(actors: Seq<ActorView>, pick: Pick)
    requires
        forall|i: int| 0 <= i < actors.len() ==> (#[trigger] actors[i]).id == i,
    ensures
        seat_ids(actors, pick).len() <= actors.len(),
        forall|k: int|
            0 <= k < seat_ids(actors, pick).len() ==> (#[trigger] seat_ids(actors, pick)[k] as int)
                < actors.len(),
    decreases actors.len(),
{
    if actors.len() > 0 {
        let rest = actors.drop_last();
        assert forall|i: int| 0 <= i < rest.len() implies (#[trigger] rest[i]).id == i by {
            assert(rest[i] == actors[i]);
        }
        lemma_seat_ids_are_seats(rest, pick);
    }
}

/// Who has won, going by who is alive: the mafia as soon as it is no
/// smaller than the town, the town as soon as no mafia is left.
pub open spec fn verdict(actors: Seq<ActorView>) -> Option<EndResult> {
    let mafia = seat_ids(actors, Pick::Mafia).len();
    let town = seat_ids(actors, Pick::Town).len();
    if mafia >= town {
        Some(EndResult::Mafia)
    } else if mafia == 0 {
        Some(EndResult::Town)
    } else {
        None
    }
}

/// A roster in which every seat has laid down the flags of the last round.
pub open spec fn rested(actors: Seq<ActorView>) -> Seq<ActorView> {
    Seq::new(actors.len(), |i: int| ActorView { extra_data: Seq::empty(), ..actors[i] })
}

impl GameView {
    /// The role of a seat.
    pub open spec fn role_of(self, id: u8) -> GameRole {
        self.actors[id as int].role
    }

    /// The game once a seat has been eliminated: the seat is dead, the
    /// renderer is told, and if the game is thereby won, its result is set.
    /// A result that is set stays.
    pub open spec fn eliminated(self, id: u8) -> GameView {
        let actors = self.actors.update(id as int, ActorView { dead: true, ..self.actors[id as int] });
        GameView {
            actors,
            end_result: match self.end_result {
                Some(result) => Some(result),
                None => verdict(actors),
            },
            ..self
        }.published(EventView::RosterChanged)
    }

    /// The game once a seat has been put under the doctor's protection.
    pub open spec fn shielded(self, id: u8) -> GameView {
        GameView {
            actors: self.actors.update(
                id as int,
                ActorView {
                    extra_data: self.actors[id as int].extra_data.push(
                        ExtraData::ProtectedByDoctor,
                    ),
                    ..self.actors[id as int]
                },
            ),
            ..self
        }
    }
}

impl Game {
    /// The ids of the living seats of a part, in the order of the roster.
    pub fn living_ids(&self, pick: Pick) -> (ids: Vec<u8>)
        requires
            self@.wf(),
        ensures
            ids@ == seat_ids(self@.actors, pick),
            self@.knows_all(ids@),
            ids@.len() <= self@.actors.len(),
    {
        let mut ids: Vec<u8> = Vec::new();
        let ghost all = self@.actors;
        let mut i: usize = 0;
        assert(all.take(0) == Seq::<ActorView>::empty());
        while i < self.actors.len()
            invariant
                i <= self.actors.len(),
                all == self@.actors,
                ids@ == seat_ids(all.take(i as int), pick),
            decreases self.actors.len() - i,
        {
            proof {
                assert(all.take(i + 1).drop_last() == all.take(i as int));
                assert(all.take(i + 1).last() == self.actors@[i as int]@);
            }
            if pick.is_wanted(&self.actors[i]) {
                ids.push(self.actors[i].id);
            }
            i = i + 1;
        }
        proof {
            assert(all.take(self.actors.len() as int) == all);
            lemma_seat_ids_are_seats(all, pick);
        }
        ids
    }

    /// Who has won, going by who is alive.
    pub fn check_end(&self) -> (result: Option<EndResult>)
        requires
            self@.wf(),
        ensures
            result == verdict(self@.actors),
    {
        let mafia = self.living_ids(Pick::Mafia).len();
        let town = self.living_ids(Pick::Town).len();
        if mafia >= town {
            Some(EndResult::Mafia)
        } else if mafia == 0 {
            Some(EndResult::Town)
        } else {
            None
        }
    }

    /// Marks a seat dead, tells the renderer, and sets the result of the
    /// game if the game is thereby won.
    pub fn eliminate(&mut self, id: u8)
        requires
            old(self)@.wf(),
            old(self)@.knows(id),
        ensures
            final(self)@ == old(self)@.eliminated(id),
            final(self)@.wf(),
    {
        self.actors[id as usize].dead = true;
        assert(self@.actors =~= old(self)@.actors.update(
            id as int,
            ActorView { dead: true, ..old(self)@.actors[id as int] },
        ));
        assert(self@.wf());
        if self.end_result.is_none() {
            self.end_result = self.check_end();
        }
        self.publish(OutboundEvent::RosterChanged);
    }

    /// Puts a seat under the doctor's protection for this round.
    pub fn shield(&mut self, id: u8)
        requires
            old(self)@.wf(),
            old(self)@.knows(id),
        ensures
            final(self)@ == old(self)@.shielded(id),
            final(self)@.wf(),
    {
        self.actors[id as usize].extra_data.push(ExtraData::ProtectedByDoctor);
        assert(self@.actors =~= old(self)@.shielded(id).actors);
    }

    /// Takes the flags of the last round off every seat.
    pub fn clear_round_flags(&mut self)
        requires
            old(self)@.wf(),
        ensures
            final(self)@ == (GameView { actors: rested(old(self)@.actors), ..old(self)@ }),
            final(self)@.wf(),
    {
        let mut i: usize = 0;
        while i < self.actors.len()
            invariant
                i <= self.actors.len(),
                self.actors.len() == old(self).actors.len(),
                self@ == (GameView { actors: self@.actors, ..old(self)@ }),
                forall|k: int|
                    0 <= k < i ==> (#[trigger] self.actors@[k])@ == (ActorView {
                        extra_data: Seq::empty(),
                        ..old(self).actors@[k]@
                    }),
                forall|k: int|
                    i <= k < self.actors.len() ==> #[trigger] self.actors@[k] == old(
                        self,
                    ).actors@[k],
            decreases self.actors.len() - i,
        {
            let ghost before = self.actors@;
            self.actors[i].extra_data.clear();
            assert forall|k: int| 0 <= k < self.actors.len() && k != i implies self.actors@[k]
                == before[k] by {}
            i = i + 1;
        }
        assert(self@.actors =~= rested(old(self)@.actors));
    }
}

} // verus!
