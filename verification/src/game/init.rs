//! Setting a game up: the roster, the roles, and the entries that open the log.

use crate::actor::{actor_views, ActorView, BaseActor};
use crate::data::channel::Channel;
use crate::data::extra_data::ExtraData;
use crate::data::roles::{GameRole, RoleAlignment};
use crate::game::iterate::{global_tags, mafia_tags, own_tags};
use crate::game::{DayNightCount, Game, GameView, Stage, EXTRA_MESSAGES};
use crate::prompts::general::{
    build_actor_list, build_actor_list_text, build_role_list, build_role_list_text, introduce_you,
    introduce_you_text, utter_beginning, utter_beginning_text,
};
use crate::prompts::specific::mafia::{build_mafia_list, build_mafia_list_text};
use rand::seq::SliceRandom;
use vstd::prelude::*;

verus! {

/// `rand::seq::SliceRandom::shuffle` with the generator of `rand::rng()`:
/// the seats are put into a random order, in place. Whatever the order, the
/// list holds what it held before.
#[verifier::external_body]
fn shuffle_seats(seats: &mut Vec<u8>)
    ensures
        final(seats)@.to_multiset() == old(seats)@.to_multiset(),
{
    seats.shuffle(&mut rand::rng());
}

/// The roles that are dealt out, in the order in which they are dealt. The
/// seats that get none of them keep the role they have.
pub open spec fn role_pool() -> Seq<GameRole> {
    seq![
        GameRole::Mafioso,
        GameRole::Mafioso,
        GameRole::Mafioso,
        GameRole::Doctor,
        GameRole::Sheriff,
    ]
}

/// The ids of a roster of `count` seats, in order.
pub open spec fn seat_range(count: nat) -> Seq<u8> {
    Seq::new(count, |i: int| i as u8)
}

/// The roster once the first `upto` roles of the pool have been dealt to
/// the first `upto` seats of `order`.
pub open spec fn dealt(actors: Seq<ActorView>, order: Seq<u8>, upto: nat) -> Seq<ActorView>
    decreases upto,
{
    if upto == 0 {
        actors
    } else {
        let before = dealt(actors, order, (upto - 1) as nat);
        let seat = order[upto - 1] as int;
        before.update(seat, ActorView { role: role_pool()[upto - 1], ..before[seat] })
    }
}

/// The roster once the roles have been dealt in the order given: as many
/// roles as there are seats, and no more than the pool holds.
pub open spec fn assigned(actors: Seq<ActorView>, order: Seq<u8>) -> Seq<ActorView> {
    dealt(
        actors,
        order,
        if actors.len() < role_pool().len() {
            actors.len()
        } else {
            role_pool().len()
        },
    )
}

/// Whether `order` lists every seat of a roster of `count` seats once.
pub open spec fn orders_seats(order: Seq<u8>, count: nat) -> bool {
    order.to_multiset() == seat_range(count).to_multiset()
}

pub proof fn lemma_order_names_seats(order: Seq<u8>, count: nat)
    requires
        count <= 255,
        orders_seats(order, count),
    ensures
        order.len() == count,
        forall|k: int| 0 <= k < order.len() ==> (#[trigger] order[k] as int) < count,
{
    let seats = seat_range(count);
    order.to_multiset_ensures();
    seats.to_multiset_ensures();
    assert forall|k: int| 0 <= k < order.len() implies (#[trigger] order[k] as int) < count by {
        assert(order.contains(order[k]));
        assert(seats.to_multiset().count(order[k]) > 0);
        assert(seats.contains(order[k]));
        let i = choose|i: int| 0 <= i < seats.len() && seats[i] == order[k];
        assert(seats[i] == i as u8);
    }
}

/// The roles that a roster holds, each once, in the order of their names.
pub open spec fn roles_present(actors: Seq<ActorView>) -> Seq<GameRole> {
    let holds = |role: GameRole| exists|i: int| 0 <= i < actors.len() && actors[i].role == role;
    (if holds(GameRole::Doctor) {
        seq![GameRole::Doctor]
    } else {
        Seq::empty()
    }) + (if holds(GameRole::Mafioso) {
        seq![GameRole::Mafioso]
    } else {
        Seq::empty()
    }) + (if holds(GameRole::Sheriff) {
        seq![GameRole::Sheriff]
    } else {
        Seq::empty()
    }) + (if holds(GameRole::Villager) {
        seq![GameRole::Villager]
    } else {
        Seq::empty()
    })
}

/// The names and ids of a roster, in order.
pub open spec fn seat_pairs(actors: Seq<ActorView>) -> Seq<(Seq<char>, u8)> {
    Seq::new(actors.len(), |i: int| (actors[i].name, actors[i].id))
}

/// The names and ids of the mafia of a roster, in order.
pub open spec fn mafia_pairs(actors: Seq<ActorView>) -> Seq<(Seq<char>, u8)>
    decreases actors.len(),
{
    if actors.len() == 0 {
        Seq::empty()
    } else if actors.last().role.is_mafia() {
        mafia_pairs(actors.drop_last()).push((actors.last().name, actors.last().id))
    } else {
        mafia_pairs(actors.drop_last())
    }
}

impl GameView {
    /// A game that has not been set up: it has no seats and holds on to no id.
    pub open spec fn fresh(self) -> bool {
        &&& self.actors.len() == 0
        &&& self.sheriffs.len() == 0
        &&& self.doctors.len() == 0
        &&& self.talk.seats.len() == 0
        &&& self.talk.queue.len() == 0
        &&& self.poll.voters.len() == 0
        &&& self.poll.ballots.len() == 0
        &&& self.poll.next == 0
        &&& self.last_kill is None
        &&& self.stage == Stage::Idle
        &&& !self.waiting
    }

    /// The game once the first `upto` seats have been told who they are,
    /// each for itself alone.
    pub open spec fn introduced(self, upto: nat) -> GameView
        decreases upto,
    {
        if upto == 0 {
            self
        } else {
            let seat = self.actors[upto - 1];
            self.introduced((upto - 1) as nat).told(
                introduce_you_text(seat.name, seat.id, seat.role),
                own_tags(seat.id),
            )
        }
    }

    /// The game once its log has been opened: the rules, the roles in play
    /// and the seats for everyone, the mafia for the mafia, and to every
    /// seat its own role. A game that is to start at night is set to night.
    pub open spec fn opened(self, start_at_night: bool) -> GameView {
        let told = self.told(
            utter_beginning_text(self.actors.len() as u8, EXTRA_MESSAGES),
            global_tags(),
        ).told(build_role_list_text(roles_present(self.actors)), global_tags()).told(
            build_actor_list_text(seat_pairs(self.actors)),
            global_tags(),
        ).told(build_mafia_list_text(mafia_pairs(self.actors)), mafia_tags()).introduced(
            self.actors.len(),
        );
        GameView {
            clock: DayNightCount {
                is_night: self.clock.is_night || start_at_night,
                ..self.clock
            },
            ..told
        }
    }
}

fn tags_of(channel: Channel) -> (tags: Vec<ExtraData>)
    ensures
        tags@ == seq![ExtraData::SaidInChannel(channel)],
{
    let mut tags: Vec<ExtraData> = Vec::new();
    tags.push(ExtraData::SaidInChannel(channel));
    tags
}

impl Game {
    /// Deals the roles of the pool to the seats in the order given.
    pub fn deal_roles(&mut self, order: &Vec<u8>)
        requires
            old(self)@.wf(),
            order@.len() >= old(self)@.actors.len() || order@.len() >= 5,
            old(self)@.knows_all(order@),
        ensures
            final(self)@ == (GameView {
                actors: assigned(old(self)@.actors, order@),
                ..old(self)@
            }),
            final(self)@.wf(),
            final(self)@.actors.len() == old(self)@.actors.len(),
    {
        let count: usize = if self.actors.len() < 5 {
            self.actors.len()
        } else {
            5
        };
        let mut k: usize = 0;
        while k < count
            invariant
                k <= count <= 5,
                count <= order.len(),
                count == if old(self)@.actors.len() < 5 {
                    old(self)@.actors.len()
                } else {
                    5
                },
                old(self)@.knows_all(order@),
                self@ == (GameView {
                    actors: dealt(old(self)@.actors, order@, k as nat),
                    ..old(self)@
                }),
                self@.actors.len() == old(self)@.actors.len(),
                self.actors.len() == old(self).actors.len(),
                self@.wf(),
            decreases count - k,
        {
            let seat = order[k] as usize;
            assert((order@[k as int] as int) < old(self)@.actors.len());
            let role = if k < 3 {
                GameRole::Mafioso
            } else if k == 3 {
                GameRole::Doctor
            } else {
                GameRole::Sheriff
            };
            assert(role == role_pool()[k as int]);
            let ghost before = self@.actors;
            self.actors[seat].role = role;
            assert(self@.actors =~= before.update(
                seat as int,
                ActorView { role, ..before[seat as int] },
            ));
            assert forall|i: int| 0 <= i < self@.actors.len() implies (
            #[trigger] self@.actors[i]).id == i by {
                assert(before[i].id == i);
            }
            k = k + 1;
        }
    }

    /// Seats the players and deals the roles at random.
    ///
    /// Which seat gets which role is left to chance; whatever the outcome,
    /// the roles have been dealt in some order that lists every seat once.
    pub fn init_actors(&mut self, actors: Vec<BaseActor>)
        requires
            old(self)@.fresh(),
            actors@.len() <= 255,
            forall|i: int| 0 <= i < actors@.len() ==> (#[trigger] actors@[i]).id == i,
            old(self)@.playable_actor matches Some(player) ==> (player as int) < actors@.len(),
        ensures
            exists|order: Seq<u8>|
                orders_seats(order, actors@.len()) && final(self)@ == (GameView {
                    actors: assigned(actor_views(actors@), order),
                    ..old(self)@
                }),
            final(self)@.wf(),
            final(self)@.actors.len() == actors@.len(),
    {
        self.actors = actors;
        assert(self@.wf());
        let mut order: Vec<u8> = Vec::new();
        let mut i: usize = 0;
        while i < self.actors.len()
            invariant
                i <= self.actors.len() <= 255,
                order@ == seat_range(i as nat),
            decreases self.actors.len() - i,
        {
            order.push(i as u8);
            assert(order@ =~= seat_range((i + 1) as nat));
            i = i + 1;
        }
        shuffle_seats(&mut order);
        proof {
            lemma_order_names_seats(order@, self.actors.len() as nat);
        }
        self.deal_roles(&order);
        assert(orders_seats(order@, actors@.len()) && self@ == (GameView {
            actors: assigned(actor_views(actors@), order@),
            ..old(self)@
        }));
    }

    fn holds_role(&self, role: GameRole) -> (holds: bool)
        ensures
            holds == exists|i: int| 0 <= i < self@.actors.len() && self@.actors[i].role == role,
    {
        let mut i: usize = 0;
        while i < self.actors.len()
            invariant
                i <= self.actors.len(),
                forall|k: int| 0 <= k < i ==> self@.actors[k].role != role,
            decreases self.actors.len() - i,
        {
            if self.actors[i].role == role {
                assert(self@.actors[i as int].role == role);
                return true;
            }
            i = i + 1;
        }
        false
    }

    fn mafia_list(&self) -> (text: String)
        ensures
            text@ == build_mafia_list_text(mafia_pairs(self@.actors)),
    {
        let mut mafias: Vec<&BaseActor> = Vec::new();
        let ghost all = self@.actors;
        let mut i: usize = 0;
        assert(all.take(0) == Seq::<ActorView>::empty());
        while i < self.actors.len()
            invariant
                i <= self.actors.len(),
                all == self@.actors,
                Seq::new(mafias@.len(), |k: int| (mafias@[k].name@, mafias@[k].id)) == mafia_pairs(
                    all.take(i as int),
                ),
            decreases self.actors.len() - i,
        {
            proof {
                assert(all.take(i + 1).drop_last() == all.take(i as int));
                assert(all.take(i + 1).last() == self.actors@[i as int]@);
            }
            let is_mafia = match self.actors[i].role.alignment() {
                RoleAlignment::Mafia => true,
                _ => false,
            };
            if is_mafia {
                let ghost before = mafias@;
                mafias.push(&self.actors[i]);
                assert(Seq::new(mafias@.len(), |k: int| (mafias@[k].name@, mafias@[k].id))
                    == Seq::new(before.len(), |k: int| (before[k].name@, before[k].id)).push(
                    (self.actors@[i as int].name@, self.actors@[i as int].id),
                ));
            }
            i = i + 1;
        }
        assert(all.take(self.actors.len() as int) == all);
        build_mafia_list(mafias.as_slice())
    }

    fn role_list(&self) -> (text: String)
        ensures
            text@ == build_role_list_text(roles_present(self@.actors)),
    {
        let mut roles: Vec<&GameRole> = Vec::new();
        if self.holds_role(GameRole::Doctor) {
            roles.push(&GameRole::Doctor);
        }
        if self.holds_role(GameRole::Mafioso) {
            roles.push(&GameRole::Mafioso);
        }
        if self.holds_role(GameRole::Sheriff) {
            roles.push(&GameRole::Sheriff);
        }
        if self.holds_role(GameRole::Villager) {
            roles.push(&GameRole::Villager);
        }
        assert(Seq::new(roles@.len(), |i: int| *roles@[i]) =~= roles_present(self@.actors));
        build_role_list(roles.as_slice())
    }

    /// Writes the entries that open the log, and sets the game to night
    /// where it is to start at night.
    pub fn init_context(&mut self, start_at_night: bool)
        requires
            old(self)@.wf(),
            old(self)@.stage == Stage::Idle,
        ensures
            final(self)@ == old(self)@.opened(start_at_night),
            final(self)@.wf(),
    {
        let count = self.actors.len() as u8;
        self.narrate(utter_beginning(count, EXTRA_MESSAGES), tags_of(Channel::Global));
        let roles = self.role_list();
        self.narrate(roles, tags_of(Channel::Global));
        let seats = build_actor_list(self.actors.as_slice());
        assert(Seq::new(
            self.actors@.len(),
            |i: int| (self.actors@[i].name@, self.actors@[i].id),
        ) =~= seat_pairs(self@.actors));
        self.narrate(seats, tags_of(Channel::Global));
        let mafia = self.mafia_list();
        self.narrate(mafia, tags_of(Channel::Mafia));
        let ghost told = self@;
        let mut i: usize = 0;
        while i < self.actors.len()
            invariant
                i <= self.actors.len(),
                told.actors == old(self)@.actors,
                self@ == told.introduced(i as nat),
                self@.actors == told.actors,
                self@.wf(),
                self@.stage == Stage::Idle,
                self@.clock == old(self)@.clock,
            decreases self.actors.len() - i,
        {
            let text = introduce_you(&self.actors[i]);
            let id = self.actors[i].id;
            self.narrate(text, tags_of(Channel::ToSelf(id)));
            i = i + 1;
        }
        if start_at_night {
            self.day_night_count.is_night = true;
        }
    }
}

} // verus!
