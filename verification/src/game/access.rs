use crate::actor::{ActorView, BaseActor};
use crate::context_entry::{entry_views, visible_entries, visible_log, ContextEntry};
use crate::game::{Game, Stage};
use std::collections::VecDeque;
use vstd::prelude::*;

verus! {

/// The living seats of a roster, in order.
pub open spec fn living(actors: Seq<ActorView>) -> Seq<ActorView> {
    actors.filter(|a: ActorView| !a.dead)
}

fn all_below(ids: &Vec<u8>, bound: usize) -> (ok: bool)
    ensures
        ok == forall|i: int| 0 <= i < ids@.len() ==> (#[trigger] ids@[i] as int) < bound,
{
    let mut i: usize = 0;
    while i < ids.len()
        invariant
            i <= ids.len(),
            forall|k: int| 0 <= k < i ==> (#[trigger] ids@[k] as int) < bound,
        decreases ids.len() - i,
    {
        if ids[i] as usize >= bound {
            assert(!((ids@[i as int] as int) < bound));
            return false;
        }
        i = i + 1;
    }
    true
}

fn all_queued_below(ids: &VecDeque<u8>, bound: usize) -> (ok: bool)
    ensures
        ok == forall|i: int| 0 <= i < ids@.len() ==> (#[trigger] ids@[i] as int) < bound,
{
    let mut i: usize = 0;
    while i < ids.len()
        invariant
            i <= ids.len(),
            forall|k: int| 0 <= k < i ==> (#[trigger] ids@[k] as int) < bound,
        decreases ids.len() - i,
    {
        if ids[i] as usize >= bound {
            assert(!((ids@[i as int] as int) < bound));
            return false;
        }
        i = i + 1;
    }
    true
}

impl Game {
    /// Whether the state is well formed. The engine keeps it so; whoever
    /// builds or changes a state by hand can ask.
    pub fn is_well_formed(&self) -> (ok: bool)
        ensures
            ok == self@.wf(),
    {
        let n = self.actors.len();
        if n > 255 {
            return false;
        }
        let mut i: usize = 0;
        while i < n
            invariant
                i <= n == self.actors.len(),
                n <= 255,
                forall|k: int| 0 <= k < i ==> (#[trigger] self@.actors[k]).id == k,
            decreases n - i,
        {
            if self.actors[i].id as usize != i {
                assert(self@.actors[i as int].id != i);
                return false;
            }
            i = i + 1;
        }
        let lists = all_queued_below(&self.sheriffs, n) && all_queued_below(&self.doctors, n)
            && all_below(&self.talk.seats, n) && all_queued_below(&self.talk.turn_queue, n)
            && all_below(&self.poll.voters, n) && all_below(&self.poll.ballots, n);
        let killed = match &self.last_kill {
            Some(killed) => all_below(killed, n),
            None => true,
        };
        let player = match self.playable_actor {
            Some(player) => (player as usize) < n,
            None => true,
        };
        let idle = match self.stage {
            Stage::Idle => true,
            _ => false,
        };
        let polling = match self.stage {
            Stage::Polling => true,
            _ => false,
        };
        let nightly = match self.stage {
            Stage::Investigating | Stage::Protecting => true,
            _ => false,
        };
        let waiting = !self.waiting || (!idle && (self.asked as usize) < n && (!polling
            || self.poll.next < self.poll.voters.len()));
        let counting = idle || self.can_count_on();
        lists && killed && player && self.poll.next <= self.poll.voters.len() && waiting
            && counting && (!nightly || self.day_night_count.is_night)
    }

    /// Whether the phase that is under way, or about to begin, can be
    /// counted when it ends.
    pub fn can_count_on(&self) -> (ok: bool)
        ensures
            ok == self@.can_count_on(),
    {
        if self.day_night_count.is_night {
            self.day_night_count.night_count < u8::MAX
        } else {
            self.day_night_count.day_count < u8::MAX
        }
    }

    pub fn get_actors(&self) -> (actors: &Vec<BaseActor>)
        ensures
            actors == &self.actors,
    {
        &self.actors
    }

    pub fn get_context(&self) -> (log: &Vec<ContextEntry>)
        ensures
            log == &self.context,
    {
        &self.context
    }

    /// The seat with the given id, if the game has it.
    pub fn get_actor_from_id(&self, id: u8) -> (actor: Option<&BaseActor>)
        requires
            self@.wf(),
        ensures
            match actor {
                Some(a) => self@.knows(id) && *a == self.actors@[id as int] && a.id == id,
                None => !self@.knows(id),
            },
    {
        if (id as usize) < self.actors.len() {
            assert(self@.actors[id as int].id == id);
            Some(&self.actors[id as usize])
        } else {
            None
        }
    }

    /// The log as a seat may read it: the entries whose every tag admits the
    /// seat, in the order of the log. Reading changes nothing.
    pub fn view_for(&self, viewer_id: u8, include_raw: bool) -> (shown: Vec<ContextEntry>)
        requires
            self@.wf(),
            self@.knows(viewer_id),
        ensures
            entry_views(shown@) == visible_log(
                self@.log,
                viewer_id,
                self@.actors[viewer_id as int].role.is_mafia(),
                include_raw,
            ),
    {
        assert(self@.actors[viewer_id as int].id == viewer_id);
        visible_entries(&self.context, &self.actors[viewer_id as usize], include_raw)
    }

    /// The living seats, in the order of the roster.
    pub fn get_nondead_actors(&self) -> (alive: Vec<&BaseActor>)
        ensures
            Seq::new(alive@.len(), |i: int| alive@[i]@) == living(self@.actors),
    {
        let mut alive: Vec<&BaseActor> = Vec::new();
        let ghost all = self@.actors;
        let ghost pred = |a: ActorView| !a.dead;
        let mut i: usize = 0;
        proof {
            reveal(Seq::filter);
            assert(all.take(0) == Seq::<ActorView>::empty());
            assert(Seq::new(alive@.len(), |i: int| alive@[i]@) == Seq::<ActorView>::empty());
        }
        while i < self.actors.len()
            invariant
                i <= self.actors.len(),
                all == self@.actors,
                pred == |a: ActorView| !a.dead,
                Seq::new(alive@.len(), |i: int| alive@[i]@) == all.take(i as int).filter(pred),
            decreases self.actors.len() - i,
        {
            proof {
                reveal(Seq::filter);
                assert(all.take(i + 1).drop_last() == all.take(i as int));
                assert(all.take(i + 1).last() == self.actors@[i as int]@);
            }
            if !self.actors[i].dead {
                let ghost before = alive@;
                alive.push(&self.actors[i]);
                assert(Seq::new(alive@.len(), |i: int| alive@[i]@) == Seq::new(
                    before.len(),
                    |i: int| before[i]@,
                ).push(self.actors@[i as int]@));
            }
            i = i + 1;
        }
        assert(all.take(self.actors.len() as int) == all);
        alive
    }
}

} // verus!
