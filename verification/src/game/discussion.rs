//! What an action does in a discussion: what it writes into the log, whether
//! it uses a message, and whom it calls up next.

use crate::context_entry::{ContextEntry, EntryView, SayerType};
use crate::data::action::{action_views, Action, ActionView};
use crate::data::channel::Channel;
use crate::data::extra_data::{copy_tags, ExtraData};
use crate::game::{EventView, Game, GameView, OutboundEvent};
use crate::prompts::general::{
    abstained_in_discussion, abstained_in_discussion_text, public_whisper_notice,
    public_whisper_notice_text, tagged_for_comment, tagged_for_comment_text, whispered,
    whispered_text, whisperer, whisperer_text,
};
use crate::text::{chars_of, text_of, trim, trimmed};
use vstd::prelude::*;
use vstd::string::*;

verus! {

/// What a turn has done so far: whether it used a message, and the text that
/// the renderer shows beside the seat.
pub struct TurnView {
    pub used: bool,
    pub focus: Seq<char>,
}

impl TurnView {
    /// A turn in which nothing has happened yet.
    pub open spec fn fresh() -> TurnView {
        TurnView { used: false, focus: Seq::empty() }
    }
}

impl ActionView {
    /// Whether a discussion can carry the action out: the seats that its
    /// whispers and tags name are seats of the game.
    pub open spec fn fits_discussion(self, game: GameView) -> bool {
        match self {
            ActionView::Whisper { to, .. } => game.knows(to),
            ActionView::TagPlayerForComment { id } => game.knows(id),
            _ => true,
        }
    }
}

impl GameView {
    /// Whether a discussion can carry every one of the actions out.
    pub open spec fn can_dispatch(self, leaves: Seq<ActionView>) -> bool {
        forall|i: int| 0 <= i < leaves.len() ==> (#[trigger] leaves[i]).fits_discussion(self)
    }

    /// The game and the turn once the seat `actor` has carried out one
    /// action that is no bundle.
    ///
    /// Talking appends what was said, under the seat's name and with the
    /// discussion's tags. Abstaining is narrated. A whisper appends three
    /// entries: a notice with the discussion's tags that neither party
    /// reads, the confirmation for the sender alone, and the message for the
    /// receiver alone. A tag is narrated and calls the tagged seat up next.
    /// Talking, whispering and tagging use a message. An id that is provided
    /// has no place in a discussion: it is dropped.
    pub open spec fn dispatched(self, turn: TurnView, actor: u8, leaf: ActionView) -> (
        GameView,
        TurnView,
    ) {
        match leaf {
            ActionView::Talk(content) => (
                self.said(
                    EntryView {
                        content,
                        sayer_type: SayerType::Actor(actor),
                        extra_data: self.talk.context,
                    },
                ),
                TurnView { used: true, focus: turn.focus + content + "\n"@ },
            ),
            ActionView::Abstain => (
                self.told(abstained_in_discussion_text(self.name_of(actor)), self.talk.context),
                TurnView { used: turn.used, focus: turn.focus + "*Abstained*\n"@ },
            ),
            ActionView::Whisper { to, message } => (
                self.told(
                    public_whisper_notice_text(self.name_of(actor), self.name_of(to)),
                    self.talk.context.push(ExtraData::WhisperMetadata { from: actor, to }),
                ).told(
                    whisperer_text(self.name_of(to), message),
                    seq![ExtraData::SaidInChannel(Channel::ToSelf(actor))],
                ).told(
                    whispered_text(self.name_of(actor), actor, message),
                    seq![ExtraData::SaidInChannel(Channel::ToSelf(to))],
                ),
                TurnView {
                    used: true,
                    focus: turn.focus + "*Whispered to "@ + self.name_of(to) + "*\n"@,
                },
            ),
            ActionView::TagPlayerForComment { id } => (
                GameView {
                    talk: self.talk.tagged(id),
                    ..self.told(
                        tagged_for_comment_text(self.name_of(actor), self.name_of(id)),
                        self.talk.context,
                    )
                },
                TurnView { used: true, focus: turn.focus + "*Tagged "@ + self.name_of(id) + "*\n"@ },
            ),
            ActionView::ProvideID(_) => (self, turn),
            ActionView::MultiCall(_) => (self, turn),
        }
    }

    /// The game and the turn once the seat has carried out a run of actions,
    /// one after the other.
    pub open spec fn dispatched_all(self, turn: TurnView, actor: u8, leaves: Seq<ActionView>) -> (
        GameView,
        TurnView,
    )
        decreases leaves.len(),
    {
        if leaves.len() == 0 {
            (self, turn)
        } else {
            let (game, so_far) = self.dispatched_all(turn, actor, leaves.drop_last());
            game.dispatched(so_far, actor, leaves.last())
        }
    }

    /// The game once a turn of the discussion is through: the actions are
    /// carried out, the renderer is shown what the seat did, if it did
    /// anything, and the turn is accounted for.
    #[verifier::opaque]
    pub open spec fn talked(self, actor: u8, action: ActionView) -> GameView {
        let (game, turn) = self.dispatched_all(TurnView::fresh(), actor, action.leaves());
        let shown = if turn.focus.len() > 0 {
            game.published(EventView::FocusActor(actor, trimmed(turn.focus)))
        } else {
            game
        };
        GameView { talk: shown.talk.settled(turn.used), ..shown }
    }
}

/// Carrying out an action in a discussion keeps the state well formed and
/// touches nothing but the log, the list of events and the queue.
pub proof fn lemma_dispatched_keeps(game: GameView, turn: TurnView, actor: u8, leaf: ActionView)
    requires
        game.wf(),
        game.knows(actor),
        leaf.fits_discussion(game),
    ensures
        game.dispatched(turn, actor, leaf).0.wf(),
        game.same_but_talk(game.dispatched(turn, actor, leaf).0),
{
    let after = game.dispatched(turn, actor, leaf).0;
    match leaf {
        ActionView::TagPlayerForComment { id } => {
            assert forall|i: int| 0 <= i < after.talk.queue.len() implies (
            #[trigger] after.talk.queue[i] as int) < after.actors.len() by {
                if i > 0 {
                    assert(after.talk.queue[i] == game.talk.queue[i - 1]);
                }
            }
        },
        _ => {},
    }
}

/// A whisper leaves exactly three entries in the log. The first, a notice
/// of who whispered to whom, is hidden from both parties; the second is read
/// by the sender and by nobody else; the third is read by the receiver and
/// by nobody else.
pub proof fn law_whisper_writes_three_entries(
    game: GameView,
    turn: TurnView,
    from: u8,
    to: u8,
    message: Seq<char>,
    viewer: u8,
    viewer_is_mafia: bool,
    include_raw: bool,
)
    ensures
        ({
            let after = game.dispatched(turn, from, ActionView::Whisper { to, message }).0;
            let n = game.log.len() as int;
            &&& after.log.len() == n + 3
            &&& after.log.take(n) == game.log
            &&& after.log[n].content == public_whisper_notice_text(
                game.name_of(from),
                game.name_of(to),
            )
            &&& after.log[n + 1].content == whisperer_text(game.name_of(to), message)
            &&& after.log[n + 2].content == whispered_text(game.name_of(from), from, message)
            &&& (viewer == from || viewer == to) ==> !after.log[n].visible_to(
                viewer,
                viewer_is_mafia,
                include_raw,
            )
            &&& after.log[n + 1].visible_to(viewer, viewer_is_mafia, include_raw) <==> viewer
                == from
            &&& after.log[n + 2].visible_to(viewer, viewer_is_mafia, include_raw) <==> viewer == to
        }),
{
    let after = game.dispatched(turn, from, ActionView::Whisper { to, message }).0;
    let n = game.log.len() as int;
    assert(after.log.take(n) =~= game.log);
    let notice = after.log[n];
    let last = notice.extra_data.len() - 1;
    assert(notice.extra_data[last] == ExtraData::WhisperMetadata { from, to });
    let second = after.log[n + 1];
    assert(second.extra_data[0] == ExtraData::SaidInChannel(Channel::ToSelf(from)));
    let third = after.log[n + 2];
    assert(third.extra_data[0] == ExtraData::SaidInChannel(Channel::ToSelf(to)));
}

/// A seat that is tagged is the next to be asked, whoever was next in the
/// queue before, as long as the turn leaves the discussion a core message.
pub proof fn law_tagged_seat_is_asked_next(game: GameView, actor: u8, id: u8)
    requires
        game.talked(actor, ActionView::TagPlayerForComment { id }).talk.core > 0,
    ensures
        game.talked(actor, ActionView::TagPlayerForComment { id }).from_talk().waiting,
        game.talked(actor, ActionView::TagPlayerForComment { id }).from_talk().asked == id,
{
    reveal(GameView::talked);
    reveal(GameView::from_talk);
    let tag = ActionView::TagPlayerForComment { id };
    let leaves = tag.leaves();
    assert(leaves == seq![tag]);
    assert(leaves.drop_last() == Seq::<ActionView>::empty());
    assert(leaves.last() == tag);
    let done = game.dispatched_all(TurnView::fresh(), actor, leaves);
    assert(game.dispatched_all(TurnView::fresh(), actor, leaves.drop_last()) == (
        game,
        TurnView::fresh(),
    ));
    assert(done == game.dispatched(TurnView::fresh(), actor, tag));
    assert(done.0.talk.queue == seq![id] + game.talk.queue);
    assert(done.0.talk.queue[0] == id);
}

impl Game {
    /// Whether a discussion can carry the action out.
    pub fn fits_discussion(&self, action: &Action) -> (fits: bool)
        ensures
            fits == self@.can_dispatch(action@.leaves()),
    {
        let leaves = action.leaves();
        let mut i: usize = 0;
        while i < leaves.len()
            invariant
                i <= leaves.len(),
                action_views(leaves@) == action@.leaves(),
                forall|k: int|
                    0 <= k < i ==> (#[trigger] action@.leaves()[k]).fits_discussion(self@),
            decreases leaves.len() - i,
        {
            assert(action@.leaves()[i as int] == leaves@[i as int]@);
            let known = match &leaves[i] {
                Action::Whisper { to, .. } => (*to as usize) < self.actors.len(),
                Action::TagPlayerForComment { id } => (*id as usize) < self.actors.len(),
                _ => true,
            };
            if !known {
                return false;
            }
            i = i + 1;
        }
        true
    }

    fn handle_leaf(
        &mut self,
        actor_id: u8,
        leaf: &Action,
        used_message: &mut bool,
        final_content: &mut String,
    )
        requires
            old(self)@.wf(),
            old(self)@.knows(actor_id),
            leaf@.fits_discussion(old(self)@),
        ensures
            (final(self)@, TurnView { used: *final(used_message), focus: final(final_content)@ })
                == old(self)@.dispatched(
                TurnView { used: *old(used_message), focus: old(final_content)@ },
                actor_id,
                leaf@,
            ),
    {
        match leaf {
            Action::Talk(content) => {
                let tags = copy_tags(&self.talk.extra_data);
                self.add_to_context(
                    ContextEntry {
                        content: content.clone(),
                        sayer_type: SayerType::Actor(actor_id),
                        extra_data: tags,
                    },
                );
                *used_message = true;
                final_content.append(content.as_str());
                final_content.append("\n");
            },
            Action::Abstain => {
                let text = abstained_in_discussion(&self.actors[actor_id as usize]);
                let tags = copy_tags(&self.talk.extra_data);
                self.narrate(text, tags);
                final_content.append("*Abstained*\n");
            },
            Action::Whisper { to, message } => {
                let mut tags = copy_tags(&self.talk.extra_data);
                tags.push(ExtraData::WhisperMetadata { from: actor_id, to: *to });
                let notice = public_whisper_notice(
                    &self.actors[actor_id as usize],
                    &self.actors[*to as usize],
                );
                let sent = whisperer(&self.actors[*to as usize], message.as_str());
                let received = whispered(&self.actors[actor_id as usize], message.as_str());
                let mut for_sender: Vec<ExtraData> = Vec::new();
                for_sender.push(ExtraData::SaidInChannel(Channel::ToSelf(actor_id)));
                let mut for_receiver: Vec<ExtraData> = Vec::new();
                for_receiver.push(ExtraData::SaidInChannel(Channel::ToSelf(*to)));
                assert(for_sender@ == seq![ExtraData::SaidInChannel(Channel::ToSelf(actor_id))]);
                assert(for_receiver@ == seq![ExtraData::SaidInChannel(Channel::ToSelf(*to))]);
                self.narrate(notice, tags);
                self.narrate(sent, for_sender);
                self.narrate(received, for_receiver);
                *used_message = true;
                final_content.append("*Whispered to ");
                final_content.append(self.actors[*to as usize].name.as_str());
                final_content.append("*\n");
            },
            Action::TagPlayerForComment { id } => {
                let text = tagged_for_comment(
                    &self.actors[actor_id as usize],
                    &self.actors[*id as usize],
                );
                let tags = copy_tags(&self.talk.extra_data);
                self.narrate(text, tags);
                self.talk.tag(*id);
                *used_message = true;
                final_content.append("*Tagged ");
                final_content.append(self.actors[*id as usize].name.as_str());
                final_content.append("*\n");
            },
            Action::ProvideID(_) => {},
            Action::MultiCall(_) => {},
        }
    }

    /// Carries out an action in the discussion that is under way: a bundle
    /// is carried out item by item, in order, bundles within it included.
    pub fn handle_action(
        &mut self,
        actor_id: u8,
        action: &Action,
        used_message: &mut bool,
        final_content: &mut String,
    )
        requires
            old(self)@.wf(),
            old(self)@.knows(actor_id),
            old(self)@.can_dispatch(action@.leaves()),
        ensures
            (final(self)@, TurnView { used: *final(used_message), focus: final(final_content)@ })
                == old(self)@.dispatched_all(
                TurnView { used: *old(used_message), focus: old(final_content)@ },
                actor_id,
                action@.leaves(),
            ),
            final(self)@.wf(),
            old(self)@.same_but_talk(final(self)@),
    {
        let leaves = action.leaves();
        let ghost all = action@.leaves();
        let ghost begin = old(self)@;
        let ghost turn = TurnView { used: *old(used_message), focus: old(final_content)@ };
        let mut i: usize = 0;
        assert(all.take(0) == Seq::<ActionView>::empty());
        while i < leaves.len()
            invariant
                i <= leaves.len(),
                all == action_views(leaves@),
                begin.wf(),
                begin.knows(actor_id),
                begin.can_dispatch(all),
                (self@, TurnView { used: *used_message, focus: final_content@ })
                    == begin.dispatched_all(turn, actor_id, all.take(i as int)),
                self@.wf(),
                begin.same_but_talk(self@),
            decreases leaves.len() - i,
        {
            proof {
                assert(all.take(i + 1).drop_last() == all.take(i as int));
                assert(all.take(i + 1).last() == leaves@[i as int]@);
                assert(all[i as int].fits_discussion(begin));
                lemma_dispatched_keeps(
                    self@,
                    TurnView { used: *used_message, focus: final_content@ },
                    actor_id,
                    leaves@[i as int]@,
                );
            }
            self.handle_leaf(actor_id, &leaves[i], used_message, final_content);
            i = i + 1;
        }
        assert(all.take(leaves.len() as int) == all);
    }

    /// Carries out the action of the seat whose turn it is, shows the
    /// renderer what the seat did, and accounts for the turn.
    pub fn handle_and_focus(&mut self, actor_id: u8, action: &Action)
        requires
            old(self)@.wf(),
            old(self)@.knows(actor_id),
            old(self)@.can_dispatch(action@.leaves()),
        ensures
            final(self)@ == old(self)@.talked(actor_id, action@),
            final(self)@.wf(),
            final(self)@ == (GameView {
                log: final(self)@.log,
                outbox: final(self)@.outbox,
                talk: final(self)@.talk,
                ..old(self)@
            }),
    {
        proof {
            reveal(GameView::talked);
        }
        let mut used_message = false;
        let mut final_content = String::new();
        self.handle_action(actor_id, action, &mut used_message, &mut final_content);
        let shown = chars_of(final_content.as_str());
        if shown.len() > 0 {
            let text = text_of(&trim(&shown));
            self.publish(OutboundEvent::FocusActor(actor_id, text));
        }
        self.talk.settle(used_message);
    }
}

} // verus!
