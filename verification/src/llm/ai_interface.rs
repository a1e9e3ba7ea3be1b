//! The seat of a language model: what the model is shown, and what becomes
//! of its reply.

use crate::context_entry::{
    entry_views,
    ChatMessage,
    ChatMessageView,
    ChatRole,
    ContextEntry,
    EntryView,
    SayerType,
};
use crate::data::action::{action_views, lemma_bundle_view, Action, ActionView};
use crate::data::channel::Channel;
use crate::data::extra_data::ExtraData;
use crate::game::Game;
use crate::llm::tools::{handle_tool_call, tool_call_actions, ToolError};
use crate::text::{chars_of, same_text, text_of, trim, trimmed};
use vstd::prelude::*;
use vstd::string::*;

verus! {

/// The model behind an agent-controlled seat.
#[derive(Debug, Clone, PartialEq, Eq)]
pub struct AIInterface {
    pub model_id: String,
    pub owner_id: u8,
}

/// One call of a tool, as the model returns it: the tool's name and its
/// arguments as JSON text.
#[derive(Debug, Clone, PartialEq, Eq)]
pub struct ToolCall {
    pub name: String,
    pub arguments: String,
}

/// What a model answers to a request.
#[derive(Debug, Clone, PartialEq, Eq)]
pub struct ModelReply {
    pub content: Option<String>,
    pub reasoning: Option<String>,
    pub tool_calls: Option<Vec<ToolCall>>,
}

/// The names and arguments of a run of tool calls.
pub open spec fn call_views(calls: Seq<ToolCall>) -> Seq<(Seq<char>, Seq<char>)> {
    Seq::new(calls.len(), |i: int| (calls[i].name@, calls[i].arguments@))
}

/// The messages that stand for a log in the conversation shown to a seat:
/// one for each entry that the seat may read, raw entries left out, in the
/// order of the log.
pub open spec fn shown_messages(
    log: Seq<EntryView>,
    viewer: u8,
    viewer_name: Seq<char>,
    viewer_is_mafia: bool,
) -> Seq<ChatMessageView>
    decreases log.len(),
{
    if log.len() == 0 {
        Seq::empty()
    } else {
        let before = shown_messages(log.drop_last(), viewer, viewer_name, viewer_is_mafia);
        if log.last().visible_to(viewer, viewer_is_mafia, false) {
            before.push(log.last().chat_message(viewer, viewer_name))
        } else {
            before
        }
    }
}

/// The prompt as the last message of a conversation.
pub open spec fn prompt_message(prompt: Seq<char>) -> ChatMessageView {
    ChatMessageView { role: ChatRole::System, content: prompt, name: None }
}

/// What is kept of a reply for the raw view of the log: the model's
/// reasoning where it gave one, else what it said, trimmed and under a
/// heading; nothing where it gave neither.
pub open spec fn raw_text(content: Option<Seq<char>>, reasoning: Option<Seq<char>>) -> Option<
    Seq<char>,
> {
    let said = match content {
        Some(c) => if c.len() > 0 {
            "CONTENT:\n"@ + trimmed(c) + "\n"@
        } else {
            "NONE"@
        },
        None => "NONE"@,
    };
    let kept = match reasoning {
        Some(r) => if r.len() > 0 {
            "REASONING:\n"@ + trimmed(r) + "\n"@
        } else {
            said
        },
        None => said,
    };
    if trimmed(kept) == "NONE"@ {
        None
    } else {
        Some(trimmed(kept))
    }
}

/// The actions that a run of tool calls stands for, in order, or the first
/// error among them.
pub open spec fn calls_actions(calls: Seq<(Seq<char>, Seq<char>)>) -> Result<
    Seq<ActionView>,
    ToolError,
>
    decreases calls.len(),
{
    if calls.len() == 0 {
        Ok(Seq::empty())
    } else {
        match calls_actions(calls.drop_last()) {
            Err(error) => Err(error),
            Ok(first) => match tool_call_actions(calls.last().0, calls.last().1) {
                Ok(last) => Ok(first + last),
                Err(error) => Err(error),
            },
        }
    }
}

/// The action that a reply stands for, and the error that was met, if any.
/// A reply without tool calls abstains. A reply whose tool calls stand for
/// one action stands for that action, any other for the bundle of the
/// actions. A reply with a tool call that cannot be read abstains, too, and
/// the error is handed on.
pub open spec fn reply_action(tool_calls: Option<Seq<(Seq<char>, Seq<char>)>>) -> (
    ActionView,
    Option<ToolError>,
) {
    match tool_calls {
        None => (ActionView::Abstain, None),
        Some(calls) => match calls_actions(calls) {
            Ok(actions) => if actions.len() == 1 {
                (actions[0], None)
            } else {
                (ActionView::MultiCall(actions), None)
            },
            Err(error) => (ActionView::Abstain, Some(error)),
        },
    }
}

proof fn lemma_calls_fail_on(calls: Seq<(Seq<char>, Seq<char>)>, upto: int)
    requires
        0 <= upto <= calls.len(),
    ensures
        calls_actions(calls.take(upto)) matches Err(error) ==> calls_actions(calls) == Err::<
            Seq<ActionView>,
            ToolError,
        >(error),
    decreases calls.len() - upto,
{
    if upto == calls.len() {
        assert(calls.take(upto) == calls);
    } else {
        assert(calls.take(upto + 1).drop_last() == calls.take(upto));
        lemma_calls_fail_on(calls, upto + 1);
    }
}

/// The text that is kept of a reply for the raw view of the log.
pub fn raw_entry_text(content: &Option<String>, reasoning: &Option<String>) -> (text: Option<
    String,
>)
    ensures
        match text {
            Some(t) => raw_text(
                match content {
                    Some(c) => Some(c@),
                    None => None,
                },
                match reasoning {
                    Some(r) => Some(r@),
                    None => None,
                },
            ) == Some(t@),
            None => raw_text(
                match content {
                    Some(c) => Some(c@),
                    None => None,
                },
                match reasoning {
                    Some(r) => Some(r@),
                    None => None,
                },
            ) is None,
        },
{
    let mut kept = String::from_str("NONE");
    match content {
        Some(c) => {
            let chars = chars_of(c.as_str());
            if chars.len() > 0 {
                kept = String::from_str("CONTENT:\n");
                kept.append(text_of(&trim(&chars)).as_str());
                kept.append("\n");
            }
        },
        None => {},
    }
    match reasoning {
        Some(r) => {
            let chars = chars_of(r.as_str());
            if chars.len() > 0 {
                kept = String::from_str("REASONING:\n");
                kept.append(text_of(&trim(&chars)).as_str());
                kept.append("\n");
            }
        },
        None => {},
    }
    let shown = trim(&chars_of(kept.as_str()));
    if same_text(&shown, "NONE") {
        None
    } else {
        Some(text_of(&shown))
    }
}

/// The action that the tool calls of a reply stand for.
pub fn action_of_calls(tool_calls: &Option<Vec<ToolCall>>) -> (outcome: (Action, Option<ToolError>))
    ensures
        (outcome.0@, outcome.1) == reply_action(
            match tool_calls {
                Some(calls) => Some(call_views(calls@)),
                None => None,
            },
        ),
{
    match tool_calls {
        None => (Action::Abstain, None),
        Some(calls) => {
            let ghost all = call_views(calls@);
            let mut collected: Vec<Action> = Vec::new();
            let mut i: usize = 0;
            assert(all.take(0) == Seq::<(Seq<char>, Seq<char>)>::empty());
            assert(action_views(collected@) == Seq::<ActionView>::empty());
            while i < calls.len()
                invariant
                    i <= calls.len(),
                    *tool_calls == Some(*calls),
                    all == call_views(calls@),
                    calls_actions(all.take(i as int)) == Ok::<Seq<ActionView>, ToolError>(
                        action_views(collected@),
                    ),
                decreases calls.len() - i,
            {
                proof {
                    assert(all.take(i + 1).drop_last() == all.take(i as int));
                    assert(all.take(i + 1).last() == (
                        calls@[i as int].name@,
                        calls@[i as int].arguments@,
                    ));
                    lemma_calls_fail_on(all, i + 1);
                }
                match handle_tool_call(
                    (calls[i].name.as_str(), calls[i].arguments.as_str()),
                    &mut collected,
                ) {
                    Ok(_) => {},
                    Err(error) => {
                        return (Action::Abstain, Some(error));
                    },
                }
                i = i + 1;
            }
            assert(all.take(calls.len() as int) == all);
            if collected.len() == 1 {
                match collected.pop() {
                    Some(action) => (action, None),
                    None => (Action::Abstain, None),
                }
            } else {
                proof {
                    lemma_bundle_view(collected);
                }
                (Action::MultiCall(collected), None)
            }
        },
    }
}

impl AIInterface {
    /// The conversation that the model is shown: the log as the seat may
    /// read it, and the prompt as its last message.
    pub fn build_messages(&self, game: &Game, prompt: &str) -> (messages: Vec<ChatMessage>)
        requires
            game@.wf(),
            game@.knows(self.owner_id),
        ensures
            Seq::new(messages@.len(), |i: int| messages@[i]@) == shown_messages(
                game@.log,
                self.owner_id,
                game@.name_of(self.owner_id),
                game@.role_of(self.owner_id).is_mafia(),
            ).push(prompt_message(prompt@)),
    {
        let viewer = &game.actors[self.owner_id as usize];
        assert(viewer.id == self.owner_id) by {
            assert(game@.actors[self.owner_id as int].id == self.owner_id);
        }
        let mut messages: Vec<ChatMessage> = Vec::new();
        let ghost log = game@.log;
        let mut i: usize = 0;
        assert(log.take(0) == Seq::<EntryView>::empty());
        assert(Seq::new(messages@.len(), |i: int| messages@[i]@) == Seq::<
            ChatMessageView,
        >::empty());
        while i < game.context.len()
            invariant
                i <= game.context.len(),
                log == entry_views(game.context@),
                viewer.id == self.owner_id,
                Seq::new(messages@.len(), |k: int| messages@[k]@) == shown_messages(
                    log.take(i as int),
                    self.owner_id,
                    viewer.name@,
                    viewer.role.is_mafia(),
                ),
            decreases game.context.len() - i,
        {
            proof {
                assert(log.take(i + 1).drop_last() == log.take(i as int));
                assert(log.take(i + 1).last() == game.context@[i as int]@);
            }
            match game.context[i].to_chat_message(viewer) {
                Some(message) => {
                    let ghost before = messages@;
                    messages.push(message);
                    assert(Seq::new(messages@.len(), |k: int| messages@[k]@) == Seq::new(
                        before.len(),
                        |k: int| before[k]@,
                    ).push(message@));
                },
                None => {},
            }
            i = i + 1;
        }
        assert(log.take(game.context.len() as int) == log);
        let ghost before = messages@;
        let last = ChatMessage {
            role: ChatRole::System,
            content: String::from_str(prompt),
            name: None,
        };
        messages.push(last);
        assert(Seq::new(messages@.len(), |k: int| messages@[k]@) == Seq::new(
            before.len(),
            |k: int| before[k]@,
        ).push(last@));
        messages
    }

    /// Takes the reply of the model: what it said or reasoned is kept in
    /// the log for the raw view of its seat, and its tool calls are turned
    /// into the seat's action.
    pub fn take_reply(&self, game: &mut Game, reply: &ModelReply) -> (outcome: (
        Action,
        Option<ToolError>,
    ))
        ensures
            (outcome.0@, outcome.1) == reply_action(
                match reply.tool_calls {
                    Some(calls) => Some(call_views(calls@)),
                    None => None,
                },
            ),
            final(game)@ == match raw_text(
                match reply.content {
                    Some(c) => Some(c@),
                    None => None,
                },
                match reply.reasoning {
                    Some(r) => Some(r@),
                    None => None,
                },
            ) {
                Some(text) => old(game)@.said(
                    EntryView {
                        content: text,
                        sayer_type: SayerType::Actor(self.owner_id),
                        extra_data: seq![ExtraData::SaidInChannel(Channel::Raw(self.owner_id))],
                    },
                ),
                None => old(game)@,
            },
            old(game)@.wf() ==> final(game)@.wf(),
    {
        match raw_entry_text(&reply.content, &reply.reasoning) {
            Some(content) => {
                let mut tags: Vec<ExtraData> = Vec::new();
                tags.push(ExtraData::SaidInChannel(Channel::Raw(self.owner_id)));
                game.add_to_context(
                    ContextEntry {
                        content,
                        sayer_type: SayerType::Actor(self.owner_id),
                        extra_data: tags,
                    },
                );
            },
            None => {},
        }
        action_of_calls(&reply.tool_calls)
    }
}

} // verus!
