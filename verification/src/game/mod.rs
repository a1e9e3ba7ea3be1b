//! The state of one game and the engine that drives it from request to
//! request. The engine asks for one action at a time; whoever runs it gets
//! the action from the seat and hands it back.

use crate::actor::{actor_views, ActorView, BaseActor};
use crate::context_entry::{entry_views, ContextEntry, EntryView, SayerType};
use crate::data::extra_data::ExtraData;
use crate::game::turns::{Discussion, DiscussionView};
use std::collections::VecDeque;
use vstd::prelude::*;

pub mod access;
pub mod discussion;
pub mod drive;
pub mod init;
pub mod iterate;
pub mod laws;
pub mod roster;
pub mod turns;
pub mod voting;

verus! {

/// The extra messages of every discussion.
pub const EXTRA_MESSAGES: u8 = 7;

/// How many days and nights have passed, and which of the two it is now.
#[derive(Debug, Clone, Copy, PartialEq, Eq, Structural)]
pub struct DayNightCount {
    pub day_count: u8,
    pub night_count: u8,
    pub is_night: bool,
}

/// How a game ended.
#[derive(Debug, Clone, Copy, PartialEq, Eq, Structural)]
pub enum EndResult {
    Mafia,
    Town,
}

/// What the engine tells whoever renders the game. The events are to be
/// handled in the order in which the engine lists them.
#[derive(Debug, Clone, PartialEq, Eq)]
pub enum OutboundEvent {
    /// The log has a new entry, at this position.
    LogAppended(usize),
    /// Who is alive has been looked at afresh.
    RosterChanged,
    /// This seat is the centre of attention, with the text to show.
    FocusActor(u8, String),
    /// The game is over.
    GameEnded(EndResult),
}

/// An outbound event as a mathematical value.
pub enum EventView {
    LogAppended(usize),
    RosterChanged,
    FocusActor(u8, Seq<char>),
    GameEnded(EndResult),
}

impl View for OutboundEvent {
    type V = EventView;

    open spec fn view(&self) -> EventView {
        match self {
            OutboundEvent::LogAppended(at) => EventView::LogAppended(*at),
            OutboundEvent::RosterChanged => EventView::RosterChanged,
            OutboundEvent::FocusActor(id, text) => EventView::FocusActor(*id, text@),
            OutboundEvent::GameEnded(result) => EventView::GameEnded(*result),
        }
    }
}

/// The views of a run of events, in order.
pub open spec fn event_views(events: Seq<OutboundEvent>) -> Seq<EventView> {
    Seq::new(events.len(), |i: int| events[i]@)
}

/// What the engine is busy with.
#[derive(Debug, Clone, Copy, PartialEq, Eq, Structural)]
pub enum Stage {
    /// Between two phases.
    Idle,
    /// The sheriffs investigate, one after the other.
    Investigating,
    /// The doctors protect, one after the other.
    Protecting,
    /// A discussion is held.
    Talking,
    /// A poll is taken.
    Polling,
}

/// A poll in progress.
#[derive(Debug, Clone, PartialEq, Eq)]
pub struct Poll {
    /// The seats that vote, in the order in which they are asked.
    pub voters: Vec<u8>,
    /// How many of them have voted.
    pub next: usize,
    /// The ballots cast so far.
    pub ballots: Vec<u8>,
    /// The tags that the narration of this poll carries.
    pub extra_data: Vec<ExtraData>,
}

/// A poll as a mathematical value.
pub struct PollView {
    pub voters: Seq<u8>,
    pub next: nat,
    pub ballots: Seq<u8>,
    pub context: Seq<ExtraData>,
}

impl View for Poll {
    type V = PollView;

    open spec fn view(&self) -> PollView {
        PollView {
            voters: self.voters@,
            next: self.next as nat,
            ballots: self.ballots@,
            context: self.extra_data@,
        }
    }
}

/// One game: the roster, the log, and where the engine stands.
#[derive(Debug, Clone, PartialEq, Eq)]
pub struct Game {
    /// The seats; a seat's id is its position.
    pub actors: Vec<BaseActor>,
    /// The event log. It only ever grows at its end.
    pub context: Vec<ContextEntry>,
    /// The events that wait to be handed to the renderer.
    pub outbox: Vec<OutboundEvent>,
    /// How the game ended, once it has.
    pub end_result: Option<EndResult>,
    /// The seat of the human player, if there is one.
    pub playable_actor: Option<u8>,
    /// The seats killed in the night that has just passed.
    pub last_kill: Option<Vec<u8>>,
    pub day_night_count: DayNightCount,
    pub stage: Stage,
    /// Whether the engine waits for the action of the seat `asked`.
    pub waiting: bool,
    pub asked: u8,
    /// The sheriffs that have not investigated yet this night.
    pub sheriffs: VecDeque<u8>,
    /// The doctors that have not protected yet this night.
    pub doctors: VecDeque<u8>,
    pub talk: Discussion,
    pub poll: Poll,
    /// Whether the end of the game has been written into the log.
    pub end_announced: bool,
}

/// A game as a mathematical value.
pub struct GameView {
    pub actors: Seq<ActorView>,
    pub log: Seq<EntryView>,
    pub outbox: Seq<EventView>,
    pub end_result: Option<EndResult>,
    pub playable_actor: Option<u8>,
    pub last_kill: Option<Seq<u8>>,
    pub clock: DayNightCount,
    pub stage: Stage,
    pub waiting: bool,
    pub asked: u8,
    pub sheriffs: Seq<u8>,
    pub doctors: Seq<u8>,
    pub talk: DiscussionView,
    pub poll: PollView,
    pub end_announced: bool,
}

impl View for Game {
    type V = GameView;

    open spec fn view(&self) -> GameView {
        GameView {
            actors: actor_views(self.actors@),
            log: entry_views(self.context@),
            outbox: event_views(self.outbox@),
            end_result: self.end_result,
            playable_actor: self.playable_actor,
            last_kill: match self.last_kill {
                Some(killed) => Some(killed@),
                None => None,
            },
            clock: self.day_night_count,
            stage: self.stage,
            waiting: self.waiting,
            asked: self.asked,
            sheriffs: self.sheriffs@,
            doctors: self.doctors@,
            talk: self.talk@,
            poll: self.poll@,
            end_announced: self.end_announced,
        }
    }
}

impl GameView {
    /// Whether every id of the list is a seat of the game.
    pub open spec fn knows_all(self, ids: Seq<u8>) -> bool {
        forall|i: int| 0 <= i < ids.len() ==> (#[trigger] ids[i] as int) < self.actors.len()
    }

    /// Whether the id is a seat of the game.
    pub open spec fn knows(self, id: u8) -> bool {
        (id as int) < self.actors.len()
    }

    /// Whether the phase that is under way can end: its counter has room
    /// for one more.
    pub open spec fn can_count_on(self) -> bool {
        if self.clock.is_night {
            self.clock.night_count < u8::MAX
        } else {
            self.clock.day_count < u8::MAX
        }
    }

    /// The state is well formed: ids are positions, and every id that the
    /// engine holds on to is a seat.
    pub open spec fn wf(self) -> bool {
        &&& self.actors.len() <= 255
        &&& forall|i: int| 0 <= i < self.actors.len() ==> (#[trigger] self.actors[i]).id == i
        &&& self.knows_all(self.sheriffs)
        &&& self.knows_all(self.doctors)
        &&& self.knows_all(self.talk.seats)
        &&& self.knows_all(self.talk.queue)
        &&& self.knows_all(self.poll.voters)
        &&& self.knows_all(self.poll.ballots)
        &&& self.last_kill matches Some(killed) ==> self.knows_all(killed)
        &&& self.playable_actor matches Some(player) ==> self.knows(player)
        &&& self.poll.next <= self.poll.voters.len()
        &&& self.waiting ==> self.stage != Stage::Idle && self.knows(self.asked)
        &&& self.waiting && self.stage == Stage::Polling ==> self.poll.next < self.poll.voters.len()
        &&& self.stage != Stage::Idle ==> self.can_count_on()
        &&& (self.stage == Stage::Investigating || self.stage == Stage::Protecting)
            ==> self.clock.is_night
    }

    /// Whether `other` differs from this game in nothing but the log, the
    /// list of events and the queue of the discussion.
    pub open spec fn same_but_talk(self, other: GameView) -> bool {
        other == (GameView {
            log: other.log,
            outbox: other.outbox,
            talk: DiscussionView { queue: other.talk.queue, ..self.talk },
            ..self
        })
    }

    /// Whether `other` differs from this game in nothing but the log and
    /// the list of events.
    pub open spec fn same_but_log(self, other: GameView) -> bool {
        other == (GameView { log: other.log, outbox: other.outbox, ..self })
    }

    /// The name of a seat.
    pub open spec fn name_of(self, id: u8) -> Seq<char> {
        self.actors[id as int].name
    }

    /// The game once an entry has been appended to the log: the entry is the
    /// last of the log, and the renderer is told of it.
    pub open spec fn said(self, entry: EntryView) -> GameView {
        GameView {
            log: self.log.push(entry),
            outbox: self.outbox.push(EventView::LogAppended(self.log.len() as usize)),
            ..self
        }
    }

    /// The game once the narrator has said something.
    pub open spec fn told(self, content: Seq<char>, tags: Seq<ExtraData>) -> GameView {
        self.said(EntryView { content, sayer_type: SayerType::System, extra_data: tags })
    }

    /// The game once an event has been listed for the renderer.
    pub open spec fn published(self, event: EventView) -> GameView {
        GameView { outbox: self.outbox.push(event), ..self }
    }
}

impl Game {
    /// A game without seats, at the dawn of day 0.
    pub fn new(playable_actor: Option<u8>) -> (game: Self)
        ensures
            game@.actors.len() == 0,
            game@.log.len() == 0,
            game@.outbox.len() == 0,
            game@.end_result is None,
            game@.last_kill is None,
            game@.clock == (DayNightCount { day_count: 0, night_count: 0, is_night: false }),
            game@.stage == Stage::Idle,
            !game@.waiting,
            !game@.end_announced,
            playable_actor is None ==> game@.wf(),
            game.playable_actor == playable_actor,
            game@.sheriffs.len() == 0,
            game@.doctors.len() == 0,
            game@.talk.seats.len() == 0,
            game@.talk.queue.len() == 0,
            game@.poll.voters.len() == 0,
            game@.poll.ballots.len() == 0,
            game@.poll.next == 0,
    {
        Game {
            actors: Vec::new(),
            context: Vec::new(),
            outbox: Vec::new(),
            end_result: None,
            playable_actor,
            last_kill: None,
            day_night_count: DayNightCount { day_count: 0, night_count: 0, is_night: false },
            stage: Stage::Idle,
            waiting: false,
            asked: 0,
            sheriffs: VecDeque::new(),
            doctors: VecDeque::new(),
            talk: Discussion::new(Vec::new(), 0, 0, Vec::new()),
            poll: Poll { voters: Vec::new(), next: 0, ballots: Vec::new(), extra_data: Vec::new() },
            end_announced: false,
        }
    }

    /// Appends an entry to the log and tells the renderer.
    pub fn add_to_context(&mut self, entry: ContextEntry)
        ensures
            final(self)@ == old(self)@.said(entry@),
    {
        let at = self.context.len();
        self.context.push(entry);
        self.outbox.push(OutboundEvent::LogAppended(at));
        assert(final(self)@.log =~= old(self)@.log.push(entry@));
        assert(final(self)@.outbox =~= old(self)@.outbox.push(EventView::LogAppended(at)));
    }

    /// Appends what the narrator says to the log.
    pub fn narrate(&mut self, content: String, tags: Vec<ExtraData>)
        ensures
            final(self)@ == old(self)@.told(content@, tags@),
    {
        self.add_to_context(
            ContextEntry { content, sayer_type: SayerType::System, extra_data: tags },
        );
    }

    /// Lists an event for the renderer.
    pub fn publish(&mut self, event: OutboundEvent)
        ensures
            final(self)@ == old(self)@.published(event@),
    {
        self.outbox.push(event);
        assert(final(self)@.outbox =~= old(self)@.outbox.push(event@));
    }

    /// Hands over the events that have been listed since the last call, in order.
    pub fn take_events(&mut self) -> (events: Vec<OutboundEvent>)
        ensures
            event_views(events@) == old(self)@.outbox,
            final(self)@ == (GameView { outbox: Seq::empty(), ..old(self)@ }),
    {
        let mut events: Vec<OutboundEvent> = Vec::new();
        std::mem::swap(&mut events, &mut self.outbox);
        assert(final(self)@.outbox =~= Seq::<EventView>::empty());
        events
    }
}

} // verus!
