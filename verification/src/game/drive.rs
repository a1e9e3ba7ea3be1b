//! The engine at work: it begins a phase, takes an answer, and runs on to
//! the next request.

use crate::actor::BaseActor;
use crate::data::action::{action_views, Action, ActionView};
use crate::data::channel::Channel;
use crate::data::extra_data::{copy_tags, ExtraData};
use crate::data::roles::RoleAlignment;
use crate::game::iterate::{
    ballot_of,
    comment_of,
    global_tags,
    provides_seats,
    Request,
    Step,
    StepView,
};
use crate::game::roster::{seat_ids, Pick};
use crate::game::turns::Discussion;
use crate::game::voting::{get_voted_out, lemma_ballot_is_cast};
use crate::game::{Game, GameView, OutboundEvent, Poll, Stage, EXTRA_MESSAGES};
use crate::llm::tools::{discussion_tools, night_tools, voting_tools, ToolKind};
use crate::prompts::general::{
    actor_voted,
    actor_was_killed,
    day_time,
    game_end,
    night_time,
    time_to_vote,
    voting_begins,
    voting_ends,
    your_turn_to_talk,
};
use crate::prompts::specific::doctor::{pick_to_protect, target_protected, you_chose_to_protect};
use crate::prompts::specific::mafia::mafia_discussion_begin;
use crate::prompts::specific::sheriff::{investigate_result, pick_to_investigate};
use std::collections::VecDeque;
use vstd::prelude::*;
use vstd::string::*;

verus! {

fn tags_of(channel: Channel) -> (tags: Vec<ExtraData>)
    ensures
        tags@ == seq![ExtraData::SaidInChannel(channel)],
{
    let mut tags: Vec<ExtraData> = Vec::new();
    tags.push(ExtraData::SaidInChannel(channel));
    tags
}

fn queue_of(ids: &Vec<u8>) -> (queue: VecDeque<u8>)
    ensures
        queue@ == ids@,
{
    let mut queue: VecDeque<u8> = VecDeque::new();
    let mut i: usize = 0;
    while i < ids.len()
        invariant
            i <= ids.len(),
            queue@ == ids@.take(i as int),
        decreases ids.len() - i,
    {
        queue.push_back(ids[i]);
        i = i + 1;
    }
    assert(ids@.take(ids.len() as int) == ids@);
    queue
}

/// The tools of a discussion turn.
pub fn tools_for_discussion() -> (tools: Vec<ToolKind>)
    ensures
        tools@ == discussion_tools(),
{
    let mut tools: Vec<ToolKind> = Vec::new();
    tools.push(ToolKind::Abstain);
    tools.push(ToolKind::Talk);
    tools.push(ToolKind::TagPlayerForComment);
    tools.push(ToolKind::Whisper);
    tools.push(ToolKind::MultiCall);
    tools
}

/// The tools of a vote.
pub fn tools_for_voting() -> (tools: Vec<ToolKind>)
    ensures
        tools@ == voting_tools(),
{
    let mut tools: Vec<ToolKind> = Vec::new();
    tools.push(ToolKind::Abstain);
    tools.push(ToolKind::Talk);
    tools.push(ToolKind::ProvideID);
    tools.push(ToolKind::MultiCall);
    tools
}

/// The one tool of a night action.
pub fn tools_for_night() -> (tools: Vec<ToolKind>)
    ensures
        tools@ == night_tools(),
{
    let mut tools: Vec<ToolKind> = Vec::new();
    tools.push(ToolKind::ProvideID);
    tools
}

impl Game {
    /// What the engine needs next. Asking twice gives the same answer.
    pub fn outlook(&self) -> (step: Step)
        requires
            self@.wf(),
        ensures
            step@ == self@.outlook(),
    {
        if self.waiting {
            let actor = &self.actors[self.asked as usize];
            let request = match self.stage {
                Stage::Investigating => Request {
                    actor: self.asked,
                    prompt: String::from_str(pick_to_investigate()),
                    tools: tools_for_night(),
                },
                Stage::Protecting => Request {
                    actor: self.asked,
                    prompt: String::from_str(pick_to_protect()),
                    tools: tools_for_night(),
                },
                Stage::Polling => Request {
                    actor: self.asked,
                    prompt: String::from_str(time_to_vote()),
                    tools: tools_for_voting(),
                },
                _ => Request {
                    actor: self.asked,
                    prompt: your_turn_to_talk(
                        actor,
                        self.talk.core_messages,
                        self.talk.extra_messages,
                    ),
                    tools: tools_for_discussion(),
                },
            };
            Step::Ask(request)
        } else {
            match self.end_result {
                Some(result) => Step::GameOver(result),
                None => Step::PhaseOver,
            }
        }
    }

    fn mourn(&mut self, killed: &Vec<u8>)
        requires
            old(self)@.wf(),
            old(self)@.knows_all(killed@),
        ensures
            final(self)@ == old(self)@.mourned(killed@),
            final(self)@.wf(),
            old(self)@.same_but_log(final(self)@),
    {
        let ghost begin = self@;
        let mut i: usize = 0;
        assert(killed@.take(0) == Seq::<u8>::empty());
        while i < killed.len()
            invariant
                i <= killed.len(),
                begin.wf(),
                begin.knows_all(killed@),
                self@ == begin.mourned(killed@.take(i as int)),
                self@.wf(),
                begin.same_but_log(self@),
            decreases killed.len() - i,
        {
            let id = killed[i];
            assert(killed@.take(i + 1).drop_last() == killed@.take(i as int));
            assert((killed@[i as int] as int) < begin.actors.len());
            let text = actor_was_killed(&self.actors[id as usize]);
            self.narrate(text, tags_of(Channel::Global));
            i = i + 1;
        }
        assert(killed@.take(killed.len() as int) == killed@);
    }

    fn announce(&mut self)
        requires
            old(self)@.wf(),
        ensures
            final(self)@ == old(self)@.announced(),
            final(self)@.wf(),
            final(self)@ == (GameView {
                log: final(self)@.log,
                outbox: final(self)@.outbox,
                last_kill: final(self)@.last_kill,
                ..old(self)@
            }),
    {
        proof {
            reveal(GameView::announced);
        }
        if self.day_night_count.is_night {
            let text = night_time(self.day_night_count.night_count);
            self.narrate(text, tags_of(Channel::Global));
        } else {
            let killed: Vec<u8> = match &self.last_kill {
                Some(killed) => {
                    let mut copy: Vec<u8> = Vec::new();
                    let mut i: usize = 0;
                    while i < killed.len()
                        invariant
                            i <= killed.len(),
                            copy@ == killed@.take(i as int),
                        decreases killed.len() - i,
                    {
                        copy.push(killed[i]);
                        i = i + 1;
                    }
                    assert(killed@.take(killed.len() as int) == killed@);
                    copy
                },
                None => Vec::new(),
            };
            assert(match old(self)@.last_kill {
                Some(k) => k == killed@,
                None => killed@.len() == 0,
            });
            self.mourn(&killed);
            self.last_kill = None;
            let text = day_time(self.day_night_count.day_count);
            self.narrate(text, tags_of(Channel::Global));
        }
    }

    /// Begins the night: the living sheriffs and doctors stand ready.
    pub fn iterate_night(&mut self)
        requires
            old(self)@.wf(),
            !old(self)@.waiting,
            old(self)@.can_count_on(),
            old(self)@.clock.is_night,
        ensures
            final(self)@ == (GameView {
                stage: Stage::Investigating,
                sheriffs: seat_ids(old(self)@.actors, Pick::Sheriffs),
                doctors: seat_ids(old(self)@.actors, Pick::Doctors),
                ..old(self)@
            }),
            final(self)@.wf(),
    {
        let sheriffs = self.living_ids(Pick::Sheriffs);
        let doctors = self.living_ids(Pick::Doctors);
        self.sheriffs = queue_of(&sheriffs);
        self.doctors = queue_of(&doctors);
        self.stage = Stage::Investigating;
    }

    /// Begins the day: everyone alive takes part in the discussion, which
    /// has one core message for each seat of the game.
    pub fn iterate_day(&mut self)
        requires
            old(self)@.wf(),
            !old(self)@.waiting,
            old(self)@.can_count_on(),
        ensures
            final(self)@ == (GameView {
                stage: Stage::Talking,
                talk: crate::game::turns::DiscussionView::begun(
                    seat_ids(old(self)@.actors, Pick::Everyone),
                    old(self)@.actors.len() as u8,
                    EXTRA_MESSAGES,
                    global_tags(),
                ),
                ..old(self)@
            }),
            final(self)@.wf(),
    {
        let seats = self.living_ids(Pick::Everyone);
        let core = self.actors.len() as u8;
        self.talk = Discussion::new(seats, core, EXTRA_MESSAGES, tags_of(Channel::Global));
        self.stage = Stage::Talking;
    }

    fn begin(&mut self)
        requires
            old(self)@.wf(),
            !old(self)@.waiting,
            old(self)@.can_count_on(),
        ensures
            final(self)@ == old(self)@.begun(),
            final(self)@.wf(),
            final(self)@.stage == if old(self)@.clock.is_night {
                Stage::Investigating
            } else {
                Stage::Talking
            },
            !final(self)@.waiting,
            final(self)@.clock == old(self)@.clock,
    {
        proof {
            reveal(GameView::begun);
        }
        self.announce();
        self.publish(OutboundEvent::RosterChanged);
        self.clear_round_flags();
        if self.day_night_count.is_night {
            self.iterate_night();
        } else {
            self.iterate_day();
        }
    }

    fn ask(&mut self, id: u8)
        requires
            old(self)@.wf(),
            old(self)@.knows(id),
            old(self)@.stage != Stage::Idle,
            old(self)@.stage == Stage::Polling ==> old(self)@.poll.next < old(
                self,
            )@.poll.voters.len(),
        ensures
            final(self)@ == old(self)@.asking(id),
            final(self)@.wf(),
    {
        self.asked = id;
        self.waiting = true;
    }

    fn from_sheriffs(&mut self)
        requires
            old(self)@.wf(),
            !old(self)@.waiting,
            old(self)@.stage == Stage::Investigating,
            old(self)@.clock.is_night,
        ensures
            final(self)@ == old(self)@.from_sheriffs(),
            final(self)@.wf(),
    {
        proof {
            reveal(GameView::from_sheriffs);
        }
        match self.sheriffs.pop_front() {
            Some(id) => {
                assert(self@.sheriffs == old(self)@.sheriffs.skip(1));
                assert(old(self)@.sheriffs[0] == id);
                assert forall|i: int| 0 <= i < self@.sheriffs.len() implies (
                #[trigger] self@.sheriffs[i] as int) < self@.actors.len() by {
                    assert(self@.sheriffs[i] == old(self)@.sheriffs[i + 1]);
                }
                self.ask(id);
            },
            None => {
                self.stage = Stage::Protecting;
                self.from_doctors();
            },
        }
    }

    fn from_doctors(&mut self)
        requires
            old(self)@.wf(),
            !old(self)@.waiting,
            old(self)@.stage == Stage::Protecting,
            old(self)@.clock.is_night,
        ensures
            final(self)@ == old(self)@.from_doctors(),
            final(self)@.wf(),
    {
        proof {
            reveal(GameView::from_doctors);
        }
        match self.doctors.pop_front() {
            Some(id) => {
                assert(self@.doctors == old(self)@.doctors.skip(1));
                assert(old(self)@.doctors[0] == id);
                assert forall|i: int| 0 <= i < self@.doctors.len() implies (
                #[trigger] self@.doctors[i] as int) < self@.actors.len() by {
                    assert(self@.doctors[i] == old(self)@.doctors[i + 1]);
                }
                self.ask(id);
            },
            None => {
                self.process_mafia_turn();
                self.run_discussion();
            },
        }
    }

    /// Gathers the living mafia for its discussion.
    fn process_mafia_turn(&mut self)
        requires
            old(self)@.wf(),
            !old(self)@.waiting,
            old(self)@.stage != Stage::Idle,
        ensures
            final(self)@ == old(self)@.mafia_gathered(),
            final(self)@.wf(),
            final(self)@.stage == Stage::Talking,
            !final(self)@.waiting,
    {
        proof {
            reveal(GameView::mafia_gathered);
        }
        let mafia = self.living_ids(Pick::Mafia);
        self.narrate(String::from_str(mafia_discussion_begin()), tags_of(Channel::Mafia));
        let core = mafia.len() as u8;
        self.talk = Discussion::new(mafia, core, EXTRA_MESSAGES, tags_of(Channel::Mafia));
        self.stage = Stage::Talking;
    }

    /// Runs the discussion on to its next turn, and past its end into the poll.
    pub fn run_discussion(&mut self)
        requires
            old(self)@.wf(),
            !old(self)@.waiting,
            old(self)@.stage == Stage::Talking,
        ensures
            final(self)@ == old(self)@.from_talk(),
            final(self)@.wf(),
    {
        proof {
            reveal(GameView::from_talk);
        }
        let ghost before = self@.talk;
        match self.talk.next_speaker() {
            Some(id) => {
                proof {
                    assert(before.queue[0] == id);
                    assert forall|i: int| 0 <= i < self@.talk.queue.len() implies (
                    #[trigger] self@.talk.queue[i] as int) < self@.actors.len() by {
                        if before.queue.skip(1).len() == 0 {
                            assert(self@.talk.queue[i] == before.seats[i]);
                        } else {
                            assert(self@.talk.queue[i] == before.queue[i + 1]);
                        }
                    }
                }
                self.ask(id);
            },
            None => {
                self.open_poll();
                self.from_poll();
            },
        }
    }

    fn open_poll(&mut self)
        requires
            old(self)@.wf(),
            !old(self)@.waiting,
            old(self)@.stage != Stage::Idle,
        ensures
            final(self)@ == old(self)@.poll_opened(),
            final(self)@.wf(),
            final(self)@.stage == Stage::Polling,
            !final(self)@.waiting,
    {
        proof {
            reveal(GameView::poll_opened);
        }
        if self.day_night_count.is_night {
            let voters = self.living_ids(Pick::Mafia);
            self.poll = Poll {
                voters,
                next: 0,
                ballots: Vec::new(),
                extra_data: tags_of(Channel::Mafia),
            };
        } else {
            self.narrate(String::from_str(voting_begins()), tags_of(Channel::Global));
            let voters = self.living_ids(Pick::Everyone);
            self.poll = Poll {
                voters,
                next: 0,
                ballots: Vec::new(),
                extra_data: tags_of(Channel::Global),
            };
        }
        self.stage = Stage::Polling;
    }

    fn from_poll(&mut self)
        requires
            old(self)@.wf(),
            !old(self)@.waiting,
            old(self)@.stage == Stage::Polling,
        ensures
            final(self)@ == old(self)@.from_poll(),
            final(self)@.wf(),
    {
        proof {
            reveal(GameView::from_poll);
        }
        if self.poll.next < self.poll.voters.len() {
            let id = self.poll.voters[self.poll.next];
            assert((self@.poll.voters[self@.poll.next as int] as int) < self@.actors.len());
            self.ask(id);
        } else {
            self.conclude();
        }
    }

    fn tally(&mut self)
        requires
            old(self)@.wf(),
            !old(self)@.waiting,
        ensures
            final(self)@ == old(self)@.tallied(),
            final(self)@.wf(),
            final(self)@.stage == old(self)@.stage,
            final(self)@.clock == old(self)@.clock,
            !final(self)@.waiting,
    {
        proof {
            reveal(GameView::tallied);
        }
        let chosen = get_voted_out(self.poll.ballots.as_slice());
        proof {
            if let Some(id) = chosen {
                lemma_ballot_is_cast(self@.poll.ballots, id);
                let i = choose|i: int|
                    0 <= i < self@.poll.ballots.len() && self@.poll.ballots[i] == id;
                assert((self@.poll.ballots[i] as int) < self@.actors.len());
            }
        }
        if self.day_night_count.is_night {
            match chosen {
                Some(id) => {
                    let text = voting_ends(Some(&self.actors[id as usize]), false);
                    self.narrate(text, tags_of(Channel::Mafia));
                    if self.actors[id as usize].protected() {
                        let text = target_protected(&self.actors[id as usize]);
                        self.narrate(text, tags_of(Channel::Global));
                    } else {
                        self.eliminate(id);
                        let mut killed: Vec<u8> = Vec::new();
                        killed.push(id);
                        self.last_kill = Some(killed);
                    }
                },
                None => {
                    let text = voting_ends(None, false);
                    self.narrate(text, tags_of(Channel::Mafia));
                },
            }
        } else {
            match chosen {
                Some(id) => {
                    let text = voting_ends(Some(&self.actors[id as usize]), true);
                    self.eliminate(id);
                    self.narrate(text, tags_of(Channel::Global));
                },
                None => {
                    let text = voting_ends(None, false);
                    self.narrate(text, tags_of(Channel::Global));
                },
            }
        }
    }

    fn conclude(&mut self)
        requires
            old(self)@.wf(),
            !old(self)@.waiting,
            old(self)@.stage != Stage::Idle,
        ensures
            final(self)@ == old(self)@.concluded(),
            final(self)@.wf(),
    {
        proof {
            reveal(GameView::concluded);
        }
        self.tally();
        if self.day_night_count.is_night {
            self.day_night_count.night_count = self.day_night_count.night_count + 1;
            self.day_night_count.is_night = false;
        } else {
            self.day_night_count.day_count = self.day_night_count.day_count + 1;
            self.day_night_count.is_night = true;
        }
        self.stage = Stage::Idle;
    }

    /// Begins the next phase and runs it to its first request. Once the
    /// game is over, its end is written into the log, once, and nothing
    /// else happens any more.
    pub fn iterate(&mut self) -> (step: Step)
        requires
            old(self)@.wf(),
            old(self)@.stage == Stage::Idle,
            old(self)@.end_result is None ==> old(self)@.can_count_on(),
        ensures
            final(self)@ == old(self)@.iterated(),
            step@ == final(self)@.outlook(),
            final(self)@.wf(),
    {
        proof {
            reveal(GameView::iterated);
            reveal(GameView::closed);
        }
        match self.end_result {
            Some(result) => {
                if !self.end_announced {
                    self.narrate(game_end(&result), tags_of(Channel::Global));
                    self.publish(OutboundEvent::GameEnded(result));
                    self.end_announced = true;
                }
            },
            None => {
                self.begin();
                if self.day_night_count.is_night {
                    self.from_sheriffs();
                } else {
                    self.run_discussion();
                }
            },
        }
        self.outlook()
    }

    /// Whether the engine can carry out the answer.
    pub fn fits(&self, action: &Action) -> (fits: bool)
        ensures
            fits == self@.fits(action@),
    {
        match self.stage {
            Stage::Idle => true,
            Stage::Investigating | Stage::Protecting => match action {
                Action::ProvideID(id) => (*id as usize) < self.actors.len(),
                _ => true,
            },
            Stage::Talking => self.fits_discussion(action),
            Stage::Polling => {
                let leaves = action.leaves();
                let mut i: usize = 0;
                while i < leaves.len()
                    invariant
                        i <= leaves.len(),
                        self.stage == Stage::Polling,
                        action_views(leaves@) == action@.leaves(),
                        forall|k: int|
                            0 <= k < i ==> ((#[trigger] action@.leaves()[k]) matches ActionView::ProvideID(
                                id,
                            ) ==> self@.knows(id)),
                    decreases leaves.len() - i,
                {
                    assert(action@.leaves()[i as int] == leaves@[i as int]@);
                    match &leaves[i] {
                        Action::ProvideID(id) => {
                            if (*id as usize) >= self.actors.len() {
                                assert(action@.leaves()[i as int] == ActionView::ProvideID(*id));
                                assert(!self@.knows(*id));
                                assert(!provides_seats(self@, action@.leaves()));
                                return false;
                            }
                        },
                        _ => {},
                    }
                    i = i + 1;
                }
                true
            },
        }
    }

    /// Takes the answer of a sheriff.
    fn process_sheriff_turn(&mut self, action: &Action)
        requires
            old(self)@.wf(),
            action@ matches ActionView::ProvideID(id) ==> old(self)@.knows(id),
        ensures
            final(self)@ == old(self)@.investigated(action@),
            final(self)@.wf(),
            final(self)@.stage == old(self)@.stage,
            final(self)@.waiting == old(self)@.waiting,
            final(self)@.clock == old(self)@.clock,
    {
        proof {
            reveal(GameView::investigated);
        }
        match action {
            Action::ProvideID(id) => {
                let text = investigate_result(&self.actors[*id as usize]);
                self.narrate(text, tags_of(Channel::ToSelf(self.asked)));
            },
            _ => {},
        }
    }

    /// Takes the answer of a doctor.
    fn process_doctor_turn(&mut self, action: &Action)
        requires
            old(self)@.wf(),
            action@ matches ActionView::ProvideID(id) ==> old(self)@.knows(id),
        ensures
            final(self)@ == old(self)@.protected(action@),
            final(self)@.wf(),
            final(self)@.stage == old(self)@.stage,
            final(self)@.waiting == old(self)@.waiting,
            final(self)@.clock == old(self)@.clock,
    {
        proof {
            reveal(GameView::protected);
        }
        match action {
            Action::ProvideID(id) => {
                let text = you_chose_to_protect(&self.actors[*id as usize]);
                self.narrate(text, tags_of(Channel::ToSelf(self.asked)));
                self.shield(*id);
            },
            _ => {},
        }
    }

    /// Takes the answer of a voter: the vote is narrated and the ballot cast.
    pub fn handle_voting(&mut self, action: &Action)
        requires
            old(self)@.wf(),
            !old(self)@.waiting,
            old(self)@.knows(old(self)@.asked),
            old(self)@.stage == Stage::Polling,
            old(self)@.poll.next < old(self)@.poll.voters.len(),
            provides_seats(old(self)@, action@.leaves()),
        ensures
            final(self)@ == old(self)@.voted(action@),
            final(self)@.wf(),
            final(self)@.stage == old(self)@.stage,
            final(self)@.waiting == old(self)@.waiting,
            final(self)@.clock == old(self)@.clock,
    {
        proof {
            reveal(GameView::voted);
        }
        let leaves = action.leaves();
        let ghost all = action@.leaves();
        let mut ballot: Option<u8> = None;
        let mut comment: Option<String> = None;
        let mut i: usize = 0;
        assert(all.take(0) == Seq::<ActionView>::empty());
        while i < leaves.len()
            invariant
                i <= leaves.len(),
                all == action_views(leaves@),
                provides_seats(self@, all),
                ballot == ballot_of(all.take(i as int)),
                match comment {
                    Some(c) => Some(c@),
                    None => None,
                } == comment_of(all.take(i as int)),
                ballot matches Some(id) ==> self@.knows(id),
            decreases leaves.len() - i,
        {
            proof {
                assert(all.take(i + 1).drop_last() == all.take(i as int));
                assert(all.take(i + 1).last() == leaves@[i as int]@);
                assert(all[i as int] == leaves@[i as int]@);
            }
            match &leaves[i] {
                Action::ProvideID(id) => {
                    ballot = Some(*id);
                },
                Action::Talk(message) => {
                    comment = Some(message.clone());
                },
                _ => {},
            }
            i = i + 1;
        }
        assert(all.take(leaves.len() as int) == all);
        let voted: Option<&BaseActor> = match ballot {
            Some(id) => Some(&self.actors[id as usize]),
            None => None,
        };
        let text = actor_voted(&self.actors[self.asked as usize], voted, comment);
        let shows = !self.day_night_count.is_night || match self.playable_actor {
            Some(player) => match self.actors[player as usize].role.alignment() {
                RoleAlignment::Mafia => true,
                _ => false,
            },
            None => false,
        };
        let tags = copy_tags(&self.poll.extra_data);
        if shows {
            self.narrate(text.clone(), tags);
            self.publish(OutboundEvent::FocusActor(self.asked, text));
        } else {
            self.narrate(text, tags);
        }
        match ballot {
            Some(id) => {
                self.poll.ballots.push(id);
                assert forall|k: int| 0 <= k < self@.poll.ballots.len() implies (
                #[trigger] self@.poll.ballots[k] as int) < self@.actors.len() by {
                    if k < old(self)@.poll.ballots.len() {
                        assert(self@.poll.ballots[k] == old(self)@.poll.ballots[k]);
                    }
                }
            },
            None => {},
        }
        assert(self@.poll.voters == old(self)@.poll.voters);
        assert(self.poll.next < self.poll.voters.len());
        self.poll.next = self.poll.next + 1;
    }

    /// Takes what the human at the input box has submitted for the seat
    /// that was asked.
    ///
    /// A submission without a command changes nothing: the step returned is
    /// the same request again, with the same prompt. A submission that names
    /// an unknown seat where a seat is called for changes nothing either,
    /// and no step is returned. Any other submission is the seat's answer.
    pub fn submit(&mut self, text: &str) -> (step: Option<Step>)
        requires
            old(self)@.wf(),
            old(self)@.waiting,
        ensures
            final(self)@.wf(),
            match crate::actor::real_actor::submission_of(text@) {
                None => {
                    &&& final(self)@ == old(self)@
                    &&& step is Some
                    &&& step->0@ == StepView::Ask(old(self)@.request())
                },
                Some(action) => if old(self)@.fits(action) {
                    &&& final(self)@ == old(self)@.answered(action)
                    &&& step is Some
                    &&& step->0@ == final(self)@.outlook()
                } else {
                    &&& final(self)@ == old(self)@
                    &&& step is None
                },
            },
    {
        match crate::actor::real_actor::parse_submission(text) {
            None => Some(self.outlook()),
            Some(action) => {
                if self.fits(&action) {
                    Some(self.answer(&action))
                } else {
                    None
                }
            },
        }
    }

    /// Takes the answer of the seat that was asked and runs on to the next
    /// request, or to the end of the phase.
    pub fn answer(&mut self, action: &Action) -> (step: Step)
        requires
            old(self)@.wf(),
            old(self)@.waiting,
            old(self)@.fits(action@),
        ensures
            final(self)@ == old(self)@.answered(action@),
            step@ == final(self)@.outlook(),
            final(self)@.wf(),
    {
        proof {
            reveal(GameView::answered);
        }
        self.waiting = false;
        match self.stage {
            Stage::Idle => {},
            Stage::Investigating => {
                self.process_sheriff_turn(action);
                self.from_sheriffs();
            },
            Stage::Protecting => {
                self.process_doctor_turn(action);
                self.from_doctors();
            },
            Stage::Talking => {
                self.handle_and_focus(self.asked, action);
                self.run_discussion();
            },
            Stage::Polling => {
                self.handle_voting(action);
                self.from_poll();
            },
        }
        self.outlook()
    }
}

} // verus!
