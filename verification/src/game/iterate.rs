//! The day/night cycle as a state machine: a phase is begun, runs from one
//! request for an action to the next, and ends with a tally.

use crate::data::action::ActionView;
use crate::data::channel::Channel;
use crate::data::extra_data::ExtraData;
use crate::game::roster::{rested, seat_ids, Pick};
use crate::game::turns::DiscussionView;
use crate::game::voting::voted_out;
use crate::game::{DayNightCount, EndResult, EventView, GameView, PollView, Stage, EXTRA_MESSAGES};
use crate::llm::tools::{discussion_tools, night_tools, voting_tools, ToolKind};
use crate::prompts::general::{
    actor_was_killed_text,
    day_time_text,
    game_end_text,
    night_time_text,
    time_to_vote_text,
    voting_begins_text,
    voting_ends_text,
    your_turn_to_talk_text,
};
use crate::prompts::specific::doctor::{
    pick_to_protect_text,
    target_protected_text,
    you_chose_to_protect_text,
};
use crate::prompts::specific::mafia::mafia_discussion_begin_text;
use crate::prompts::specific::sheriff::{investigate_result_text, pick_to_investigate_text};
use vstd::prelude::*;
use vstd::string::*;

verus! {

/// What the engine asks of a seat: one action, chosen among the tools given.
#[derive(Debug, Clone, PartialEq, Eq)]
pub struct Request {
    pub actor: u8,
    pub prompt: String,
    pub tools: Vec<ToolKind>,
}

/// A request as a mathematical value.
pub struct RequestView {
    pub actor: u8,
    pub prompt: Seq<char>,
    pub tools: Seq<ToolKind>,
}

impl View for Request {
    type V = RequestView;

    open spec fn view(&self) -> RequestView {
        RequestView { actor: self.actor, prompt: self.prompt@, tools: self.tools@ }
    }
}

/// What the engine needs next.
#[derive(Debug, Clone, PartialEq, Eq)]
pub enum Step {
    /// The action of a seat.
    Ask(Request),
    /// Nothing: the phase is over, and the next one can be begun.
    PhaseOver,
    /// Nothing: the game is over.
    GameOver(EndResult),
}

/// A step as a mathematical value.
pub enum StepView {
    Ask(RequestView),
    PhaseOver,
    GameOver(EndResult),
}

impl View for Step {
    type V = StepView;

    open spec fn view(&self) -> StepView {
        match self {
            Step::Ask(request) => StepView::Ask(request@),
            Step::PhaseOver => StepView::PhaseOver,
            Step::GameOver(result) => StepView::GameOver(*result),
        }
    }
}

/// The tags of what everyone may read.
pub open spec fn global_tags() -> Seq<ExtraData> {
    seq![ExtraData::SaidInChannel(Channel::Global)]
}

/// The tags of what the mafia alone may read.
pub open spec fn mafia_tags() -> Seq<ExtraData> {
    seq![ExtraData::SaidInChannel(Channel::Mafia)]
}

/// The tags of what one seat alone may read.
pub open spec fn own_tags(id: u8) -> Seq<ExtraData> {
    seq![ExtraData::SaidInChannel(Channel::ToSelf(id))]
}

/// The ballot in a run of actions: the last id provided, if any.
pub open spec fn ballot_of(leaves: Seq<ActionView>) -> Option<u8>
    decreases leaves.len(),
{
    if leaves.len() == 0 {
        None
    } else {
        match leaves.last() {
            ActionView::ProvideID(id) => Some(id),
            _ => ballot_of(leaves.drop_last()),
        }
    }
}

/// The comment in a run of actions: the last thing said, if any.
pub open spec fn comment_of(leaves: Seq<ActionView>) -> Option<Seq<char>>
    decreases leaves.len(),
{
    if leaves.len() == 0 {
        None
    } else {
        match leaves.last() {
            ActionView::Talk(message) => Some(message),
            _ => comment_of(leaves.drop_last()),
        }
    }
}

/// Whether every id that a run of actions provides is a seat of the game.
pub open spec fn provides_seats(game: GameView, leaves: Seq<ActionView>) -> bool {
    forall|i: int|
        0 <= i < leaves.len() ==> ((#[trigger] leaves[i]) matches ActionView::ProvideID(id)
            ==> game.knows(id))
}

impl GameView {
    /// The game once the deaths of the night have been announced, one entry
    /// for each seat killed, in order.
    pub open spec fn mourned(self, killed: Seq<u8>) -> GameView
        decreases killed.len(),
    {
        if killed.len() == 0 {
            self
        } else {
            self.mourned(killed.drop_last()).told(
                actor_was_killed_text(self.name_of(killed.last()), self.role_of(killed.last())),
                global_tags(),
            )
        }
    }

    /// The game once the phase has been announced: at night the night, by
    /// day the deaths of the night before and then the day.
    #[verifier::opaque]
    pub open spec fn announced(self) -> GameView {
        if self.clock.is_night {
            self.told(night_time_text(self.clock.night_count), global_tags())
        } else {
            let mourned = match self.last_kill {
                Some(killed) => self.mourned(killed),
                None => self,
            };
            GameView { last_kill: None, ..mourned }.told(
                day_time_text(self.clock.day_count),
                global_tags(),
            )
        }
    }

    /// The game once a phase has begun: the phase is announced, the
    /// renderer looks at the roster afresh, the flags of the last round are
    /// gone, and the night's actors or the day's discussion stand ready.
    #[verifier::opaque]
    pub open spec fn begun(self) -> GameView {
        let announced = self.announced().published(EventView::RosterChanged);
        let fresh = GameView { actors: rested(announced.actors), ..announced };
        if self.clock.is_night {
            GameView {
                stage: Stage::Investigating,
                waiting: false,
                sheriffs: seat_ids(fresh.actors, Pick::Sheriffs),
                doctors: seat_ids(fresh.actors, Pick::Doctors),
                ..fresh
            }
        } else {
            GameView {
                stage: Stage::Talking,
                waiting: false,
                talk: DiscussionView::begun(
                    seat_ids(fresh.actors, Pick::Everyone),
                    fresh.actors.len() as u8,
                    EXTRA_MESSAGES,
                    global_tags(),
                ),
                ..fresh
            }
        }
    }

    /// The game as it waits for the action of a seat.
    pub open spec fn asking(self, id: u8) -> GameView {
        GameView { asked: id, waiting: true, ..self }
    }

    /// From the sheriffs on: the next sheriff is asked, or, where none is
    /// left, the doctors take over.
    #[verifier::opaque]
    pub open spec fn from_sheriffs(self) -> GameView {
        if self.sheriffs.len() > 0 {
            GameView { sheriffs: self.sheriffs.skip(1), ..self }.asking(self.sheriffs[0])
        } else {
            GameView { stage: Stage::Protecting, ..self }.from_doctors()
        }
    }

    /// From the doctors on: the next doctor is asked, or, where none is
    /// left, the mafia gathers.
    #[verifier::opaque]
    pub open spec fn from_doctors(self) -> GameView {
        if self.doctors.len() > 0 {
            GameView { doctors: self.doctors.skip(1), ..self }.asking(self.doctors[0])
        } else {
            self.mafia_gathered().from_talk()
        }
    }

    /// The game once the mafia has gathered for its discussion, which has
    /// one core message for each living mafioso.
    #[verifier::opaque]
    pub open spec fn mafia_gathered(self) -> GameView {
        let mafia = seat_ids(self.actors, Pick::Mafia);
        GameView {
            stage: Stage::Talking,
            talk: DiscussionView::begun(mafia, mafia.len() as u8, EXTRA_MESSAGES, mafia_tags()),
            ..self.told(mafia_discussion_begin_text(), mafia_tags())
        }
    }

    /// From the discussion on: the next speaker is asked, or, where the
    /// discussion is over, the poll is opened.
    #[verifier::opaque]
    pub open spec fn from_talk(self) -> GameView {
        match self.talk.speaker() {
            Some(id) => GameView { talk: self.talk.called(), ..self }.asking(id),
            None => self.poll_opened().from_poll(),
        }
    }

    /// The game once the poll has been opened: at night the living mafia
    /// votes among itself; by day the vote is announced and everyone alive
    /// votes.
    #[verifier::opaque]
    pub open spec fn poll_opened(self) -> GameView {
        if self.clock.is_night {
            GameView {
                stage: Stage::Polling,
                poll: PollView {
                    voters: seat_ids(self.actors, Pick::Mafia),
                    next: 0,
                    ballots: Seq::empty(),
                    context: mafia_tags(),
                },
                ..self
            }
        } else {
            GameView {
                stage: Stage::Polling,
                poll: PollView {
                    voters: seat_ids(self.actors, Pick::Everyone),
                    next: 0,
                    ballots: Seq::empty(),
                    context: global_tags(),
                },
                ..self.told(voting_begins_text(), global_tags())
            }
        }
    }

    /// From the poll on: the next voter is asked, or, where everyone has
    /// voted, the phase is concluded.
    #[verifier::opaque]
    pub open spec fn from_poll(self) -> GameView {
        if self.poll.next < self.poll.voters.len() {
            self.asking(self.poll.voters[self.poll.next as int])
        } else {
            self.concluded()
        }
    }

    /// The game once the ballots have been counted.
    ///
    /// At night the mafia learns whom it chose; a seat that a doctor
    /// protects survives, and everyone hears of the attempt; any other seat
    /// chosen dies and is remembered for the morning. By day the seat chosen
    /// dies, and its role is revealed with the result. Where the vote chose
    /// nobody, that is announced and nobody dies.
    #[verifier::opaque]
    pub open spec fn tallied(self) -> GameView {
        let chosen = voted_out(self.poll.ballots);
        if self.clock.is_night {
            match chosen {
                Some(id) => {
                    let informed = self.told(
                        voting_ends_text(Some((self.name_of(id), self.role_of(id))), false),
                        mafia_tags(),
                    );
                    if self.actors[id as int].is_protected() {
                        informed.told(target_protected_text(self.name_of(id)), global_tags())
                    } else {
                        GameView { last_kill: Some(seq![id]), ..informed.eliminated(id) }
                    }
                },
                None => self.told(voting_ends_text(None, false), mafia_tags()),
            }
        } else {
            match chosen {
                Some(id) => self.eliminated(id).told(
                    voting_ends_text(Some((self.name_of(id), self.role_of(id))), true),
                    global_tags(),
                ),
                None => self.told(voting_ends_text(None, false), global_tags()),
            }
        }
    }

    /// The game once the phase is over: the ballots are counted, the phase
    /// is counted, and night turns to day or day to night.
    #[verifier::opaque]
    pub open spec fn concluded(self) -> GameView {
        let tallied = self.tallied();
        GameView {
            stage: Stage::Idle,
            waiting: false,
            clock: if self.clock.is_night {
                DayNightCount {
                    night_count: (self.clock.night_count + 1) as u8,
                    is_night: false,
                    ..self.clock
                }
            } else {
                DayNightCount {
                    day_count: (self.clock.day_count + 1) as u8,
                    is_night: true,
                    ..self.clock
                }
            },
            ..tallied
        }
    }

    /// The game once the sheriff that was asked has answered: an id
    /// provided is investigated, and the sheriff alone reads the truth
    /// about that seat. Any other answer does nothing.
    #[verifier::opaque]
    pub open spec fn investigated(self, action: ActionView) -> GameView {
        match action {
            ActionView::ProvideID(id) => self.told(
                investigate_result_text(self.name_of(id), self.role_of(id).is_mafia()),
                own_tags(self.asked),
            ),
            _ => self,
        }
    }

    /// The game once the doctor that was asked has answered: an id
    /// provided is put under protection for this round, which the doctor
    /// alone reads. Any other answer does nothing.
    #[verifier::opaque]
    pub open spec fn protected(self, action: ActionView) -> GameView {
        match action {
            ActionView::ProvideID(id) => self.told(
                you_chose_to_protect_text(self.name_of(id)),
                own_tags(self.asked),
            ).shielded(id),
            _ => self,
        }
    }

    /// Whether the renderer is shown how a seat voted: by day always, at
    /// night only where the human player is of the mafia.
    pub open spec fn shows_votes(self) -> bool {
        !self.clock.is_night || (self.playable_actor matches Some(player) && self.role_of(
            player,
        ).is_mafia())
    }

    /// What is told of the vote of the seat that was asked.
    pub open spec fn vote_text(self, action: ActionView) -> Seq<char> {
        crate::prompts::general::actor_voted_text(
            self.name_of(self.asked),
            match ballot_of(action.leaves()) {
                Some(id) => Some(self.name_of(id)),
                None => None,
            },
            comment_of(action.leaves()),
        )
    }

    /// The game once the voter that was asked has answered: the vote is
    /// narrated with the poll's tags, shown to the renderer where votes are
    /// shown, and the ballot, if there is one, is cast.
    #[verifier::opaque]
    pub open spec fn voted(self, action: ActionView) -> GameView {
        let narrated = self.told(self.vote_text(action), self.poll.context);
        let shown = if self.shows_votes() {
            narrated.published(EventView::FocusActor(self.asked, self.vote_text(action)))
        } else {
            narrated
        };
        GameView {
            poll: PollView {
                next: self.poll.next + 1,
                ballots: match ballot_of(action.leaves()) {
                    Some(id) => self.poll.ballots.push(id),
                    None => self.poll.ballots,
                },
                ..self.poll
            },
            ..shown
        }
    }

    /// Whether the engine can carry out the answer of the seat it asked:
    /// every seat that the answer names where a name counts is a seat of
    /// the game.
    pub open spec fn fits(self, action: ActionView) -> bool {
        match self.stage {
            Stage::Idle => true,
            Stage::Investigating | Stage::Protecting => (action matches ActionView::ProvideID(id)
                ==> self.knows(id)),
            Stage::Talking => self.can_dispatch(action.leaves()),
            Stage::Polling => provides_seats(self, action.leaves()),
        }
    }

    /// The game once the seat that was asked has answered, up to the next
    /// request or to the end of the phase.
    #[verifier::opaque]
    pub open spec fn answered(self, action: ActionView) -> GameView {
        let heard = GameView { waiting: false, ..self };
        match self.stage {
            Stage::Idle => self,
            Stage::Investigating => heard.investigated(action).from_sheriffs(),
            Stage::Protecting => heard.protected(action).from_doctors(),
            Stage::Talking => heard.talked(self.asked, action).from_talk(),
            Stage::Polling => heard.voted(action).from_poll(),
        }
    }

    /// The game once the end has been written into the log, which happens once.
    #[verifier::opaque]
    pub open spec fn closed(self, result: EndResult) -> GameView {
        if self.end_announced {
            self
        } else {
            GameView {
                end_announced: true,
                ..self.told(game_end_text(result), global_tags()).published(
                    EventView::GameEnded(result),
                )
            }
        }
    }

    /// The game once the next phase has been begun and has run to its first
    /// request. Once the game is over, no phase begins any more.
    #[verifier::opaque]
    pub open spec fn iterated(self) -> GameView {
        match self.end_result {
            Some(result) => self.closed(result),
            None => if self.clock.is_night {
                self.begun().from_sheriffs()
            } else {
                self.begun().from_talk()
            },
        }
    }

    /// The request that the engine waits for an answer to.
    pub open spec fn request(self) -> RequestView {
        match self.stage {
            Stage::Investigating => RequestView {
                actor: self.asked,
                prompt: pick_to_investigate_text(),
                tools: night_tools(),
            },
            Stage::Protecting => RequestView {
                actor: self.asked,
                prompt: pick_to_protect_text(),
                tools: night_tools(),
            },
            Stage::Polling => RequestView {
                actor: self.asked,
                prompt: time_to_vote_text(),
                tools: voting_tools(),
            },
            _ => RequestView {
                actor: self.asked,
                prompt: your_turn_to_talk_text(
                    self.name_of(self.asked),
                    self.role_of(self.asked),
                    self.talk.core,
                    self.talk.extra,
                ),
                tools: discussion_tools(),
            },
        }
    }

    /// What the engine needs next.
    pub open spec fn outlook(self) -> StepView {
        if self.waiting {
            StepView::Ask(self.request())
        } else {
            match self.end_result {
                Some(result) => StepView::GameOver(result),
                None => StepView::PhaseOver,
            }
        }
    }
}

/// Once the game is over no phase begins any more: the first step after the
/// end writes the end into the log and tells the renderer, and every later
/// step changes nothing. The result stays what it is.
pub proof fn law_no_phase_after_the_end(game: GameView, result: EndResult)
    requires
        game.end_result == Some(result),
    ensures
        game.iterated().end_result == Some(result),
        game.iterated().end_announced,
        game.iterated().actors == game.actors,
        game.iterated().clock == game.clock,
        game.iterated().stage == game.stage,
        game.end_announced ==> game.iterated() == game,
        !game.end_announced ==> game.iterated().log == game.log.push(
            crate::context_entry::EntryView {
                content: game_end_text(result),
                sayer_type: crate::context_entry::SayerType::System,
                extra_data: global_tags(),
            },
        ),
        game.iterated().iterated() == game.iterated(),
{
    reveal(GameView::iterated);
    reveal(GameView::closed);
}

/// A result that is set stays set when a seat is eliminated.
pub proof fn law_result_is_set_once(game: GameView, result: EndResult, id: u8)
    requires
        game.end_result == Some(result),
    ensures
        game.eliminated(id).end_result == Some(result),
{
}

} // verus!
