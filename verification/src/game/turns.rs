//! The turn-taking of a discussion: a queue of seats and a budget of messages.

use crate::data::extra_data::ExtraData;
use std::collections::VecDeque;
use vstd::prelude::*;

verus! {

/// A discussion in progress: who speaks next and how many messages are left.
/// The extra messages are spent before the core messages; the discussion is
/// over once no core message is left.
#[derive(Debug, Clone, PartialEq, Eq)]
pub struct Discussion {
    /// The seats that take part, in their order.
    pub seats: Vec<u8>,
    /// The seats that are waiting for their turn, the next one in front.
    pub turn_queue: VecDeque<u8>,
    pub core_messages: u8,
    pub extra_messages: u8,
    /// The tags that everything said in this discussion carries.
    pub extra_data: Vec<ExtraData>,
}

/// A discussion as a mathematical value.
pub struct DiscussionView {
    pub seats: Seq<u8>,
    pub queue: Seq<u8>,
    pub core: u8,
    pub extra: u8,
    pub context: Seq<ExtraData>,
}

impl View for Discussion {
    type V = DiscussionView;

    open spec fn view(&self) -> DiscussionView {
        DiscussionView {
            seats: self.seats@,
            queue: self.turn_queue@,
            core: self.core_messages,
            extra: self.extra_messages,
            context: self.extra_data@,
        }
    }
}

impl DiscussionView {
    /// A discussion as it begins: every seat is queued once, in order.
    pub open spec fn begun(seats: Seq<u8>, core: u8, extra: u8, context: Seq<ExtraData>) -> Self {
        DiscussionView { seats, queue: seats, core, extra, context }
    }

    /// Whether the discussion is over: no core message is left, or nobody is queued.
    pub open spec fn is_over(self) -> bool {
        self.core == 0 || self.queue.len() == 0
    }

    /// The seat whose turn it is, if the discussion is not over.
    pub open spec fn speaker(self) -> Option<u8> {
        if self.is_over() {
            None
        } else {
            Some(self.queue[0])
        }
    }

    /// The discussion once the speaker has been called up: the speaker has
    /// left the queue, and a queue that this empties holds every seat again.
    pub open spec fn called(self) -> Self {
        if self.is_over() {
            self
        } else {
            let rest = self.queue.skip(1);
            DiscussionView {
                queue: if rest.len() == 0 {
                    self.seats
                } else {
                    rest
                },
                ..self
            }
        }
    }

    /// The discussion once a seat has been tagged: it stands in front of the queue.
    pub open spec fn tagged(self, id: u8) -> Self {
        DiscussionView { queue: seq![id] + self.queue, ..self }
    }

    /// The discussion once a turn has been accounted for: a turn that used a
    /// message costs an extra message while there is one, else a core message.
    pub open spec fn settled(self, used: bool) -> Self {
        if !used {
            self
        } else if self.extra > 0 {
            DiscussionView { extra: (self.extra - 1) as u8, ..self }
        } else if self.core > 0 {
            DiscussionView { core: (self.core - 1) as u8, ..self }
        } else {
            self
        }
    }

    /// The messages that are left, of both kinds together.
    pub open spec fn messages_left(self) -> nat {
        self.core as nat + self.extra as nat
    }

    /// The discussion after a run of turns, of which `used` says for each
    /// whether it used a message. Turns after the end of the discussion do
    /// not take place.
    pub open spec fn after_turns(self, used: Seq<bool>) -> Self
        decreases used.len(),
    {
        if used.len() == 0 || self.core == 0 {
            self
        } else {
            self.settled(used[0]).after_turns(used.skip(1))
        }
    }

    /// How many turns of a run took place and used a message.
    pub open spec fn consuming_turns(self, used: Seq<bool>) -> nat
        decreases used.len(),
    {
        if used.len() == 0 || self.core == 0 {
            0
        } else {
            self.settled(used[0]).consuming_turns(used.skip(1)) + if used[0] {
                1nat
            } else {
                0nat
            }
        }
    }

    /// How many turns of a run used a message, whether they took place or not.
    pub open spec fn wanting_turns(used: Seq<bool>) -> nat
        decreases used.len(),
    {
        if used.len() == 0 {
            0
        } else {
            Self::wanting_turns(used.skip(1)) + if used[0] {
                1nat
            } else {
                0nat
            }
        }
    }
}

/// Whatever the seats do, the turns that use a message are paid for one by
/// one: after any run of turns their number is what the two budgets have
/// lost, so it never exceeds the messages the discussion began with. Core
/// messages are only spent once the extra messages are gone, and a
/// discussion that has ended has spent every message it began with.
pub proof fn law_budget_pays_for_every_turn(d: DiscussionView, used: Seq<bool>)
    ensures
        d.after_turns(used).core <= d.core,
        d.after_turns(used).extra <= d.extra,
        d.consuming_turns(used) == d.messages_left() - d.after_turns(used).messages_left(),
        d.consuming_turns(used) <= d.messages_left(),
        d.after_turns(used).core < d.core ==> d.after_turns(used).extra == 0,
        d.core > 0 && d.after_turns(used).core == 0 ==> d.consuming_turns(used)
            == d.messages_left(),
    decreases used.len(),
{
    if used.len() == 0 || d.core == 0 {
    } else {
        law_budget_pays_for_every_turn(d.settled(used[0]), used.skip(1));
    }
}

/// A discussion cannot go on for ever on turns that use a message: once as
/// many turns have asked for a message as the discussion had messages, it is
/// over.
pub proof fn law_discussion_ends(d: DiscussionView, used: Seq<bool>)
    requires
        DiscussionView::wanting_turns(used) >= d.messages_left(),
    ensures
        d.after_turns(used).core == 0,
    decreases used.len(),
{
    if used.len() == 0 || d.core == 0 {
    } else {
        law_discussion_ends(d.settled(used[0]), used.skip(1));
    }
}

/// A seat that is tagged in a turn speaks next, if it is the last seat
/// tagged in that turn and the turn leaves a core message.
pub proof fn law_tagged_seat_speaks_next(d: DiscussionView, id: u8)
    requires
        d.tagged(id).settled(true).core > 0,
    ensures
        d.tagged(id).settled(true).speaker() == Some(id),
        d.queue.len() > 0 ==> d.tagged(id).settled(true).called().queue == d.queue,
{
    let after = d.tagged(id).settled(true);
    assert(after.queue == seq![id] + d.queue);
    assert(after.queue[0] == id);
    assert(after.queue.skip(1) == d.queue);
}

impl Discussion {
    pub fn new(seats: Vec<u8>, core_messages: u8, extra_messages: u8, extra_data: Vec<ExtraData>) -> (d: Self)
        ensures
            d@ == DiscussionView::begun(seats@, core_messages, extra_messages, extra_data@),
    {
        let mut turn_queue: VecDeque<u8> = VecDeque::new();
        let mut i: usize = 0;
        while i < seats.len()
            invariant
                i <= seats.len(),
                turn_queue@ == seats@.take(i as int),
            decreases seats.len() - i,
        {
            turn_queue.push_back(seats[i]);
            i = i + 1;
        }
        assert(seats@.take(seats.len() as int) == seats@);
        Discussion { seats, turn_queue, core_messages, extra_messages, extra_data }
    }

    /// Calls up the next speaker, or says that the discussion is over.
    pub fn next_speaker(&mut self) -> (speaker: Option<u8>)
        ensures
            speaker == old(self)@.speaker(),
            final(self)@ == old(self)@.called(),
    {
        if self.core_messages == 0 || self.turn_queue.len() == 0 {
            return None;
        }
        let front = self.turn_queue.pop_front();
        assert(self.turn_queue@ == old(self)@.queue.skip(1));
        if self.turn_queue.len() == 0 {
            let mut i: usize = 0;
            while i < self.seats.len()
                invariant
                    i <= self.seats.len(),
                    self.seats == old(self).seats,
                    self.core_messages == old(self).core_messages,
                    self.extra_messages == old(self).extra_messages,
                    self.extra_data == old(self).extra_data,
                    self.turn_queue@ == self.seats@.take(i as int),
                decreases self.seats.len() - i,
            {
                self.turn_queue.push_back(self.seats[i]);
                i = i + 1;
            }
            assert(self.seats@.take(self.seats.len() as int) == self.seats@);
        }
        front
    }

    /// Puts a seat in front of the queue.
    pub fn tag(&mut self, id: u8)
        ensures
            final(self)@ == old(self)@.tagged(id),
    {
        self.turn_queue.push_front(id);
    }

    /// Accounts for a turn.
    pub fn settle(&mut self, used: bool)
        ensures
            final(self)@ == old(self)@.settled(used),
    {
        if used {
            if self.extra_messages > 0 {
                self.extra_messages = self.extra_messages - 1;
            } else if self.core_messages > 0 {
                self.core_messages = self.core_messages - 1;
            }
        }
    }
}

} // verus!
