//! The entries of the event log and who may read them.

use crate::actor::BaseActor;
use crate::data::extra_data::{copy_tags, ExtraData};
use crate::text::decimal_text;
use vstd::prelude::*;
use vstd::string::*;

verus! {

/// Who said what an entry records.
#[derive(Debug, Clone, Copy, PartialEq, Eq, Structural)]
pub enum SayerType {
    Actor(u8),
    System,
}

/// One entry of the event log. An entry never changes once it is in the log.
#[derive(Debug, Clone, PartialEq, Eq)]
pub struct ContextEntry {
    pub content: String,
    pub sayer_type: SayerType,
    pub extra_data: Vec<ExtraData>,
}

/// A log entry as a mathematical value.
pub struct EntryView {
    pub content: Seq<char>,
    pub sayer_type: SayerType,
    pub extra_data: Seq<ExtraData>,
}

impl View for ContextEntry {
    type V = EntryView;

    open spec fn view(&self) -> EntryView {
        EntryView {
            content: self.content@,
            sayer_type: self.sayer_type,
            extra_data: self.extra_data@,
        }
    }
}

/// The views of a run of entries, in order.
pub open spec fn entry_views(entries: Seq<ContextEntry>) -> Seq<EntryView> {
    Seq::new(entries.len(), |i: int| entries[i]@)
}

impl EntryView {
    /// Whether a viewer may read the entry: every tag on it has to admit the viewer.
    pub open spec fn visible_to(self, viewer: u8, viewer_is_mafia: bool, include_raw: bool) -> bool {
        forall|i: int|
            0 <= i < self.extra_data.len() ==> (#[trigger] self.extra_data[i]).admits(
                viewer,
                viewer_is_mafia,
                include_raw,
            )
    }
}

/// The entries of a log that a viewer may read, in the order of the log.
pub open spec fn visible_log(
    log: Seq<EntryView>,
    viewer: u8,
    viewer_is_mafia: bool,
    include_raw: bool,
) -> Seq<EntryView> {
    log.filter(|e: EntryView| e.visible_to(viewer, viewer_is_mafia, include_raw))
}

/// The role in which a message is handed to a language model.
#[derive(Debug, Clone, Copy, PartialEq, Eq, Structural)]
pub enum ChatRole {
    System,
    User,
    Assistant,
}

/// One message of the conversation that a language model is shown.
#[derive(Debug, Clone, PartialEq, Eq)]
pub struct ChatMessage {
    pub role: ChatRole,
    pub content: String,
    pub name: Option<String>,
}

/// A chat message as a mathematical value.
pub struct ChatMessageView {
    pub role: ChatRole,
    pub content: Seq<char>,
    pub name: Option<Seq<char>>,
}

impl View for ChatMessage {
    type V = ChatMessageView;

    open spec fn view(&self) -> ChatMessageView {
        ChatMessageView {
            role: self.role,
            content: self.content@,
            name: match self.name {
                Some(name) => Some(name@),
                None => None,
            },
        }
    }
}

/// What was said, with the reader's name and the sayer's id in front.
pub open spec fn attributed_text(reader: Seq<char>, sayer: u8, content: Seq<char>) -> Seq<char> {
    reader + " (ID "@ + decimal_text(sayer as nat) + "): "@ + content
}

impl EntryView {
    /// The message that stands for the entry in the conversation shown to
    /// the seat `viewer`, whose name and alignment are given. What the seat
    /// said itself is the assistant's; what another seat said is a user's,
    /// under the reader's name; the rest is the system's.
    pub open spec fn chat_message(self, viewer: u8, viewer_name: Seq<char>) -> ChatMessageView {
        match self.sayer_type {
            SayerType::Actor(id) => if id == viewer {
                ChatMessageView {
                    role: ChatRole::Assistant,
                    content: attributed_text(viewer_name, viewer, self.content),
                    name: None,
                }
            } else {
                ChatMessageView {
                    role: ChatRole::User,
                    content: attributed_text(viewer_name, id, self.content),
                    name: Some(viewer_name),
                }
            },
            SayerType::System => ChatMessageView {
                role: ChatRole::System,
                content: self.content,
                name: None,
            },
        }
    }
}

impl ContextEntry {
    /// Whether the seat may read the entry.
    pub fn available_for_actor(&self, actor: &BaseActor, include_raw: bool) -> (visible: bool)
        ensures
            visible == self@.visible_to(actor.id, actor.role.is_mafia(), include_raw),
    {
        let is_mafia = match actor.role.alignment() {
            crate::data::roles::RoleAlignment::Mafia => true,
            _ => false,
        };
        let mut i: usize = 0;
        while i < self.extra_data.len()
            invariant
                i <= self.extra_data.len(),
                is_mafia == actor.role.is_mafia(),
                forall|k: int|
                    0 <= k < i ==> (#[trigger] self.extra_data@[k]).admits(
                        actor.id,
                        is_mafia,
                        include_raw,
                    ),
            decreases self.extra_data.len() - i,
        {
            if !self.extra_data[i].is_admitting(actor.id, is_mafia, include_raw) {
                assert(!self@.extra_data[i as int].admits(actor.id, is_mafia, include_raw));
                return false;
            }
            i = i + 1;
        }
        true
    }

    /// A copy of the entry.
    pub fn duplicate(&self) -> (copy: ContextEntry)
        ensures
            copy@ == self@,
    {
        ContextEntry {
            content: self.content.clone(),
            sayer_type: self.sayer_type,
            extra_data: copy_tags(&self.extra_data),
        }
    }

    /// The message that stands for the entry in the conversation shown to a
    /// seat, or nothing where the seat may not read the entry. Raw entries
    /// are never shown.
    pub fn to_chat_message(&self, for_actor: &BaseActor) -> (message: Option<ChatMessage>)
        ensures
            match message {
                Some(m) => self@.visible_to(for_actor.id, for_actor.role.is_mafia(), false) && m@
                    == self@.chat_message(for_actor.id, for_actor.name@),
                None => !self@.visible_to(for_actor.id, for_actor.role.is_mafia(), false),
            },
    {
        if !self.available_for_actor(for_actor, false) {
            return None;
        }
        match self.sayer_type {
            SayerType::Actor(id) => {
                let mut content = for_actor.name.clone();
                content.append(" (ID ");
                content.append(crate::text::decimal(id).as_str());
                content.append("): ");
                content.append(self.content.as_str());
                if id == for_actor.id {
                    Some(ChatMessage { role: ChatRole::Assistant, content, name: None })
                } else {
                    Some(
                        ChatMessage {
                            role: ChatRole::User,
                            content,
                            name: Some(for_actor.name.clone()),
                        },
                    )
                }
            },
            SayerType::System => Some(
                ChatMessage { role: ChatRole::System, content: self.content.clone(), name: None },
            ),
        }
    }
}

/// The entries of a log that a seat may read, in the order of the log.
pub fn visible_entries(log: &Vec<ContextEntry>, actor: &BaseActor, include_raw: bool) -> (shown:
    Vec<ContextEntry>)
    ensures
        entry_views(shown@) == visible_log(
            entry_views(log@),
            actor.id,
            actor.role.is_mafia(),
            include_raw,
        ),
{
    let mut shown: Vec<ContextEntry> = Vec::new();
    let ghost all = entry_views(log@);
    let ghost pred = |e: EntryView| e.visible_to(actor.id, actor.role.is_mafia(), include_raw);
    let mut i: usize = 0;
    proof {
        reveal(Seq::filter);
        assert(all.take(0) == Seq::<EntryView>::empty());
        assert(entry_views(shown@) == Seq::<EntryView>::empty());
    }
    while i < log.len()
        invariant
            i <= log.len(),
            all == entry_views(log@),
            pred == |e: EntryView| e.visible_to(actor.id, actor.role.is_mafia(), include_raw),
            entry_views(shown@) == all.take(i as int).filter(pred),
        decreases log.len() - i,
    {
        proof {
            reveal(Seq::filter);
            assert(all.take(i + 1).drop_last() == all.take(i as int));
            assert(all.take(i + 1).last() == log@[i as int]@);
        }
        if log[i].available_for_actor(actor, include_raw) {
            let ghost before = shown@;
            let copy = log[i].duplicate();
            shown.push(copy);
            assert(entry_views(shown@) == entry_views(before).push(log@[i as int]@));
        }
        i = i + 1;
    }
    assert(all.take(log.len() as int) == all);
    shown
}

/// Reading a log changes nothing: the same log, read for the same viewer in
/// the same mode, shows the same entries in the same order.
pub proof fn law_view_is_repeatable(
    log: Seq<EntryView>,
    viewer: u8,
    viewer_is_mafia: bool,
    include_raw: bool,
    first: Seq<EntryView>,
    second: Seq<EntryView>,
)
    requires
        first == visible_log(log, viewer, viewer_is_mafia, include_raw),
        second == visible_log(log, viewer, viewer_is_mafia, include_raw),
    ensures
        first == second,
{
}

/// An entry is shown to a viewer exactly if every tag on it admits the
/// viewer, and what is shown keeps the order of the log.
pub proof fn law_view_shows_what_is_visible(
    log: Seq<EntryView>,
    viewer: u8,
    viewer_is_mafia: bool,
    include_raw: bool,
)
    ensures
        forall|e: EntryView|
            visible_log(log, viewer, viewer_is_mafia, include_raw).contains(e) <==> (log.contains(
                e,
            ) && e.visible_to(viewer, viewer_is_mafia, include_raw)),
{
    let pred = |e: EntryView| e.visible_to(viewer, viewer_is_mafia, include_raw);
    let shown = log.filter(pred);
    assert forall|e: EntryView| shown.contains(e) <==> (log.contains(e) && e.visible_to(
        viewer,
        viewer_is_mafia,
        include_raw,
    )) by {
        if shown.contains(e) {
            let i = choose|i: int| 0 <= i < shown.len() && shown[i] == e;
            log.lemma_filter_pred(pred, i);
            log.lemma_filter_contains_rev(pred, e);
        }
        if log.contains(e) && pred(e) {
            let i = choose|i: int| 0 <= i < log.len() && log[i] == e;
            log.lemma_filter_contains(pred, i);
        }
    }
}

} // verus!
