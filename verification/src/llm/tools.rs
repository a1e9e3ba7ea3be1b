//! The tools that a language model may call, and what its calls mean.

use crate::data::action::{action_views, Action, ActionView};
use crate::llm::json::{
    json_contents, json_from_text, json_items, json_member, json_of_text, json_text,
    json_unsigned, JsonContents,
};
use crate::text::{chars_of, same_text};
use vstd::prelude::*;
use vstd::string::*;

verus! {

/// The kinds of tool. Each stands for one kind of action, under the same name.
#[derive(Debug, Clone, Copy, PartialEq, Eq, Structural)]
pub enum ToolKind {
    Abstain,
    Whisper,
    TagPlayerForComment,
    ProvideID,
    Talk,
    MultiCall,
}

impl ToolKind {
    /// The name under which the tool is offered and called.
    pub open spec fn name_text(self) -> Seq<char> {
        match self {
            ToolKind::Abstain => "Abstain"@,
            ToolKind::Whisper => "Whisper"@,
            ToolKind::TagPlayerForComment => "TagPlayerForComment"@,
            ToolKind::ProvideID => "ProvideID"@,
            ToolKind::Talk => "Talk"@,
            ToolKind::MultiCall => "MultiCall"@,
        }
    }

    /// What the tool is for, as the model is told.
    pub open spec fn description_text(self) -> Seq<char> {
        match self {
            ToolKind::Abstain => "Abstain from the current action"@,
            ToolKind::Whisper => "Whisper a message to another player"@,
            ToolKind::TagPlayerForComment => "Tag a player for comment"@,
            ToolKind::ProvideID => "Provide the ID of another player"@,
            ToolKind::Talk => "Talk to another player"@,
            ToolKind::MultiCall => "Invoke multiple tools in sequence"@,
        }
    }

    pub fn name(&self) -> (text: &'static str)
        ensures
            text@ == self.name_text(),
    {
        match self {
            ToolKind::Abstain => "Abstain",
            ToolKind::Whisper => "Whisper",
            ToolKind::TagPlayerForComment => "TagPlayerForComment",
            ToolKind::ProvideID => "ProvideID",
            ToolKind::Talk => "Talk",
            ToolKind::MultiCall => "MultiCall",
        }
    }

    pub fn description(&self) -> (text: &'static str)
        ensures
            text@ == self.description_text(),
    {
        match self {
            ToolKind::Abstain => "Abstain from the current action",
            ToolKind::Whisper => "Whisper a message to another player",
            ToolKind::TagPlayerForComment => "Tag a player for comment",
            ToolKind::ProvideID => "Provide the ID of another player",
            ToolKind::Talk => "Talk to another player",
            ToolKind::MultiCall => "Invoke multiple tools in sequence",
        }
    }
}

/// The tools of a discussion turn.
pub open spec fn discussion_tools() -> Seq<ToolKind> {
    seq![
        ToolKind::Abstain,
        ToolKind::Talk,
        ToolKind::TagPlayerForComment,
        ToolKind::Whisper,
        ToolKind::MultiCall,
    ]
}

/// The tools of a vote.
pub open spec fn voting_tools() -> Seq<ToolKind> {
    seq![ToolKind::Abstain, ToolKind::Talk, ToolKind::ProvideID, ToolKind::MultiCall]
}

/// The one tool of a night action.
pub open spec fn night_tools() -> Seq<ToolKind> {
    seq![ToolKind::ProvideID]
}

/// How deep bundles may be nested in a tool call.
pub const MAX_TOOL_DEPTH: u8 = 8;

/// Why a tool call could not be turned into an action.
#[derive(Debug, Clone, Copy, PartialEq, Eq, Structural)]
pub enum ToolError {
    /// No tool has the name that was called.
    UnknownTool,
    /// The arguments are no JSON, or lack a member, or hold one of the wrong kind.
    BadArguments,
    /// Bundles are nested too deeply.
    TooDeep,
}

impl ToolError {
    /// What the error is called in a diagnostic.
    pub open spec fn message_text(self) -> Seq<char> {
        match self {
            ToolError::UnknownTool => "unknown tool call"@,
            ToolError::BadArguments => "malformed tool arguments"@,
            ToolError::TooDeep => "tool calls nested too deeply"@,
        }
    }

    pub fn message(&self) -> (text: &'static str)
        ensures
            text@ == self.message_text(),
    {
        match self {
            ToolError::UnknownTool => "unknown tool call",
            ToolError::BadArguments => "malformed tool arguments",
            ToolError::TooDeep => "tool calls nested too deeply",
        }
    }
}

/// The arguments of the tool `Abstain`: none.
#[derive(Debug, Clone, Copy, PartialEq, Eq, Structural)]
pub struct Abstain;

/// The arguments of the tool `Whisper`.
#[derive(Debug, Clone, PartialEq, Eq)]
pub struct Whisper {
    pub to: u8,
    pub message: String,
}

/// The arguments of the tool `TagPlayerForComment`.
#[derive(Debug, Clone, Copy, PartialEq, Eq, Structural)]
pub struct TagPlayerForComment {
    pub id: u8,
}

/// The arguments of the tool `ProvideID`.
#[derive(Debug, Clone, Copy, PartialEq, Eq, Structural)]
pub struct ProvideID {
    pub id: u8,
}

/// The arguments of the tool `Talk`.
#[derive(Debug, Clone, PartialEq, Eq)]
pub struct Talk {
    pub message: String,
}

impl Abstain {
    pub fn into_action(self) -> (action: Action)
        ensures
            action@ == ActionView::Abstain,
    {
        Action::Abstain
    }
}

impl Whisper {
    pub fn into_action(self) -> (action: Action)
        ensures
            action@ == (ActionView::Whisper { to: self.to, message: self.message@ }),
    {
        Action::Whisper { to: self.to, message: self.message }
    }
}

impl TagPlayerForComment {
    pub fn into_action(self) -> (action: Action)
        ensures
            action@ == (ActionView::TagPlayerForComment { id: self.id }),
    {
        Action::TagPlayerForComment { id: self.id }
    }
}

impl ProvideID {
    pub fn into_action(self) -> (action: Action)
        ensures
            action@ == ActionView::ProvideID(self.id),
    {
        Action::ProvideID(self.id)
    }
}

impl Talk {
    pub fn into_action(self) -> (action: Action)
        ensures
            action@ == ActionView::Talk(self.message@),
    {
        Action::Talk(self.message)
    }
}

/// The tool of a name. Names match exactly or not at all.
pub open spec fn tool_named(name: Seq<char>) -> Option<ToolKind> {
    if name == "Abstain"@ {
        Some(ToolKind::Abstain)
    } else if name == "Whisper"@ {
        Some(ToolKind::Whisper)
    } else if name == "TagPlayerForComment"@ {
        Some(ToolKind::TagPlayerForComment)
    } else if name == "ProvideID"@ {
        Some(ToolKind::ProvideID)
    } else if name == "Talk"@ {
        Some(ToolKind::Talk)
    } else if name == "MultiCall"@ {
        Some(ToolKind::MultiCall)
    } else {
        None
    }
}

pub fn tool_kind_of(name: &str) -> (kind: Option<ToolKind>)
    ensures
        kind == tool_named(name@),
{
    let name = chars_of(name);
    if same_text(&name, "Abstain") {
        Some(ToolKind::Abstain)
    } else if same_text(&name, "Whisper") {
        Some(ToolKind::Whisper)
    } else if same_text(&name, "TagPlayerForComment") {
        Some(ToolKind::TagPlayerForComment)
    } else if same_text(&name, "ProvideID") {
        Some(ToolKind::ProvideID)
    } else if same_text(&name, "Talk") {
        Some(ToolKind::Talk)
    } else if same_text(&name, "MultiCall") {
        Some(ToolKind::MultiCall)
    } else {
        None
    }
}

/// The action of a tool that is no bundle, given what its arguments hold
/// under `to`, `id` and `message`. A member that the tool needs and that is
/// missing, or is of the wrong kind, makes the arguments bad.
pub open spec fn action_from(
    kind: ToolKind,
    to: Option<u8>,
    id: Option<u8>,
    message: Option<Seq<char>>,
) -> Result<ActionView, ToolError> {
    match kind {
        ToolKind::Abstain => Ok(ActionView::Abstain),
        ToolKind::Whisper => match (to, message) {
            (Some(to), Some(message)) => Ok(ActionView::Whisper { to, message }),
            _ => Err(ToolError::BadArguments),
        },
        ToolKind::TagPlayerForComment => match id {
            Some(id) => Ok(ActionView::TagPlayerForComment { id }),
            None => Err(ToolError::BadArguments),
        },
        ToolKind::ProvideID => match id {
            Some(id) => Ok(ActionView::ProvideID(id)),
            None => Err(ToolError::BadArguments),
        },
        ToolKind::Talk => match message {
            Some(message) => Ok(ActionView::Talk(message)),
            None => Err(ToolError::BadArguments),
        },
        ToolKind::MultiCall => Err(ToolError::BadArguments),
    }
}

/// The action of a tool that is no bundle, given what its arguments hold.
pub fn action_of_fields(kind: ToolKind, to: Option<u8>, id: Option<u8>, message: Option<String>) -> (action:
    Result<Action, ToolError>)
    ensures
        match action {
            Ok(a) => action_from(
                kind,
                to,
                id,
                match message {
                    Some(m) => Some(m@),
                    None => None,
                },
            ) == Ok::<ActionView, ToolError>(a@),
            Err(e) => action_from(
                kind,
                to,
                id,
                match message {
                    Some(m) => Some(m@),
                    None => None,
                },
            ) == Err::<ActionView, ToolError>(e),
        },
{
    match kind {
        ToolKind::Abstain => Ok(Abstain.into_action()),
        ToolKind::Whisper => match (to, message) {
            (Some(to), Some(message)) => Ok(Whisper { to, message }.into_action()),
            _ => Err(ToolError::BadArguments),
        },
        ToolKind::TagPlayerForComment => match id {
            Some(id) => Ok(TagPlayerForComment { id }.into_action()),
            None => Err(ToolError::BadArguments),
        },
        ToolKind::ProvideID => match id {
            Some(id) => Ok(ProvideID { id }.into_action()),
            None => Err(ToolError::BadArguments),
        },
        ToolKind::Talk => match message {
            Some(message) => Ok(Talk { message }.into_action()),
            None => Err(ToolError::BadArguments),
        },
        ToolKind::MultiCall => Err(ToolError::BadArguments),
    }
}

/// The member of an object under a key, if the value is an object and has
/// that key.
pub open spec fn member_of(holds: JsonContents, key: Seq<char>) -> Option<JsonContents> {
    match holds {
        JsonContents::Object(members) => if members.contains_key(key) {
            Some(json_contents(members[key]))
        } else {
            None
        },
        _ => None,
    }
}

/// The id that the arguments hold under a key: a number below 256.
pub open spec fn member_u8(arguments: JsonContents, key: Seq<char>) -> Option<u8> {
    match member_of(arguments, key) {
        Some(JsonContents::Unsigned(number)) => if number <= u8::MAX {
            Some(number as u8)
        } else {
            None
        },
        _ => None,
    }
}

/// The text that the arguments hold under a key.
pub open spec fn member_text(arguments: JsonContents, key: Seq<char>) -> Option<Seq<char>> {
    match member_of(arguments, key) {
        Some(JsonContents::Text(text)) => Some(text),
        _ => None,
    }
}

/// The items that the arguments hold under a key.
pub open spec fn member_items(arguments: JsonContents, key: Seq<char>) -> Option<
    Seq<serde_json::Value>,
> {
    match member_of(arguments, key) {
        Some(JsonContents::List(items)) => Some(items),
        _ => None,
    }
}

fn field_u8(arguments: &serde_json::Value, key: &str) -> (id: Option<u8>)
    ensures
        id == member_u8(json_contents(*arguments), key@),
{
    match json_member(arguments, key) {
        Some(member) => match json_unsigned(member) {
            Some(number) => if number <= 255 {
                Some(number as u8)
            } else {
                None
            },
            None => None,
        },
        None => None,
    }
}

fn field_text(arguments: &serde_json::Value, key: &str) -> (text: Option<String>)
    ensures
        match text {
            Some(t) => member_text(json_contents(*arguments), key@) == Some(t@),
            None => member_text(json_contents(*arguments), key@) is None,
        },
{
    match json_member(arguments, key) {
        Some(member) => match json_text(member) {
            Some(text) => Some(String::from_str(text)),
            None => None,
        },
        None => None,
    }
}

/// The actions that a call of the tool `name` with the given arguments
/// stands for: one action, or, for a bundle, the actions of its items in
/// order, bundles within it included down to `depth` levels.
pub open spec fn call_actions(name: Seq<char>, arguments: JsonContents, depth: nat) -> Result<
    Seq<ActionView>,
    ToolError,
>
    decreases depth, 0nat,
{
    match tool_named(name) {
        None => Err(ToolError::UnknownTool),
        Some(ToolKind::MultiCall) => if depth == 0 {
            Err(ToolError::TooDeep)
        } else {
            match member_items(arguments, "actions"@) {
                Some(items) => items_actions(items, (depth - 1) as nat),
                None => Err(ToolError::BadArguments),
            }
        },
        Some(kind) => match action_from(
            kind,
            member_u8(arguments, "to"@),
            member_u8(arguments, "id"@),
            member_text(arguments, "message"@),
        ) {
            Ok(action) => Ok(seq![action]),
            Err(error) => Err(error),
        },
    }
}

/// The actions that the items of a bundle stand for, in order. Each item
/// names its tool under `tool` and holds its arguments under `arguments`.
pub open spec fn items_actions(items: Seq<serde_json::Value>, depth: nat) -> Result<
    Seq<ActionView>,
    ToolError,
>
    decreases depth, items.len() + 1,
{
    if items.len() == 0 {
        Ok(Seq::empty())
    } else {
        match items_actions(items.drop_last(), depth) {
            Err(error) => Err(error),
            Ok(first) => match (
                member_text(json_contents(items.last()), "tool"@),
                member_of(json_contents(items.last()), "arguments"@),
            ) {
                (Some(tool), Some(arguments)) => match call_actions(tool, arguments, depth) {
                    Ok(last) => Ok(first + last),
                    Err(error) => Err(error),
                },
                _ => Err(ToolError::BadArguments),
            },
        }
    }
}

/// The actions that a tool call stands for, whose arguments arrive as text.
/// The tool `Abstain` takes no arguments, and what it is given is not read.
pub open spec fn tool_call_actions(name: Seq<char>, arguments: Seq<char>) -> Result<
    Seq<ActionView>,
    ToolError,
> {
    match tool_named(name) {
        None => Err(ToolError::UnknownTool),
        Some(ToolKind::Abstain) => Ok(seq![ActionView::Abstain]),
        Some(_) => match json_of_text(arguments) {
            Some(value) => call_actions(name, value, MAX_TOOL_DEPTH as nat),
            None => Err(ToolError::BadArguments),
        },
    }
}

fn decode_call(name: &str, arguments: &serde_json::Value, depth: u8) -> (actions: Result<
    Vec<Action>,
    ToolError,
>)
    ensures
        match actions {
            Ok(found) => call_actions(name@, json_contents(*arguments), depth as nat) == Ok::<
                Seq<ActionView>,
                ToolError,
            >(action_views(found@)),
            Err(error) => call_actions(name@, json_contents(*arguments), depth as nat) == Err::<
                Seq<ActionView>,
                ToolError,
            >(error),
        },
    decreases depth, 0nat,
{
    let kind = match tool_kind_of(name) {
        Some(kind) => kind,
        None => {
            return Err(ToolError::UnknownTool);
        },
    };
    match kind {
        ToolKind::MultiCall => {
            if depth == 0 {
                return Err(ToolError::TooDeep);
            }
            match json_member(arguments, "actions") {
                Some(member) => match json_items(member) {
                    Some(items) => decode_items(items, depth - 1),
                    None => Err(ToolError::BadArguments),
                },
                None => Err(ToolError::BadArguments),
            }
        },
        _ => {
            let to = match kind {
                ToolKind::Whisper => field_u8(arguments, "to"),
                _ => None,
            };
            let id = match kind {
                ToolKind::TagPlayerForComment | ToolKind::ProvideID => field_u8(arguments, "id"),
                _ => None,
            };
            let message = match kind {
                ToolKind::Whisper | ToolKind::Talk => field_text(arguments, "message"),
                _ => None,
            };
            match action_of_fields(kind, to, id, message) {
                Ok(action) => {
                    let mut found: Vec<Action> = Vec::new();
                    found.push(action);
                    assert(action_views(found@) == seq![action@]);
                    Ok(found)
                },
                Err(error) => Err(error),
            }
        },
    }
}

fn decode_items(items: &Vec<serde_json::Value>, depth: u8) -> (actions: Result<
    Vec<Action>,
    ToolError,
>)
    ensures
        match actions {
            Ok(found) => items_actions(items@, depth as nat) == Ok::<Seq<ActionView>, ToolError>(
                action_views(found@),
            ),
            Err(error) => items_actions(items@, depth as nat) == Err::<
                Seq<ActionView>,
                ToolError,
            >(error),
        },
    decreases depth, items.len() + 1,
{
    let mut found: Vec<Action> = Vec::new();
    let mut i: usize = 0;
    assert(items@.take(0) == Seq::<serde_json::Value>::empty());
    assert(action_views(found@) == Seq::<ActionView>::empty());
    while i < items.len()
        invariant
            i <= items.len(),
            items_actions(items@.take(i as int), depth as nat) == Ok::<
                Seq<ActionView>,
                ToolError,
            >(action_views(found@)),
        decreases items.len() - i,
    {
        proof {
            assert(items@.take(i + 1).drop_last() == items@.take(i as int));
            assert(items@.take(i + 1).last() == items@[i as int]);
            lemma_items_fail_on(items@, i + 1, depth as nat);
        }
        let tool = match field_text(&items[i], "tool") {
            Some(tool) => tool,
            None => {
                return Err(ToolError::BadArguments);
            },
        };
        let arguments = match json_member(&items[i], "arguments") {
            Some(arguments) => arguments,
            None => {
                return Err(ToolError::BadArguments);
            },
        };
        match decode_call(tool.as_str(), arguments, depth) {
            Ok(mut last) => {
                append_actions(&mut found, &mut last);
            },
            Err(error) => {
                return Err(error);
            },
        }
        i = i + 1;
    }
    assert(items@.take(items.len() as int) == items@);
    Ok(found)
}

/// Once a part of the items of a bundle fails, the whole bundle fails the
/// same way.
proof fn lemma_items_fail_on(items: Seq<serde_json::Value>, upto: int, depth: nat)
    requires
        0 <= upto <= items.len(),
    ensures
        items_actions(items.take(upto), depth) matches Err(error) ==> items_actions(items, depth)
            == Err::<Seq<ActionView>, ToolError>(error),
    decreases items.len() - upto,
{
    if upto == items.len() {
        assert(items.take(upto) == items);
    } else {
        assert(items.take(upto + 1).drop_last() == items.take(upto));
        lemma_items_fail_on(items, upto + 1, depth);
    }
}

fn append_actions(found: &mut Vec<Action>, more: &mut Vec<Action>)
    ensures
        action_views(final(found)@) == action_views(old(found)@) + action_views(old(more)@),
{
    let ghost first = found@;
    let ghost added = more@;
    found.append(more);
    assert(action_views(found@) =~= action_views(first) + action_views(added));
}

/// Turns a tool call into the actions it stands for and adds them to those
/// collected so far. A call that cannot be turned into actions adds nothing.
pub fn handle_tool_call(tool_call: (&str, &str), collected_actions: &mut Vec<Action>) -> (done:
    Result<(), ToolError>)
    ensures
        match done {
            Ok(_) => tool_call_actions(tool_call.0@, tool_call.1@) matches Ok(actions)
                && action_views(final(collected_actions)@) == action_views(old(collected_actions)@)
                + actions,
            Err(error) => tool_call_actions(tool_call.0@, tool_call.1@) == Err::<
                Seq<ActionView>,
                ToolError,
            >(error) && final(collected_actions)@ == old(collected_actions)@,
        },
{
    let kind = match tool_kind_of(tool_call.0) {
        Some(kind) => kind,
        None => {
            return Err(ToolError::UnknownTool);
        },
    };
    match kind {
        ToolKind::Abstain => {
            let ghost before = collected_actions@;
            collected_actions.push(Action::Abstain);
            assert(action_views(collected_actions@) == action_views(before) + seq![
                ActionView::Abstain,
            ]);
            Ok(())
        },
        _ => match json_from_text(tool_call.1) {
            Ok(value) => match decode_call(tool_call.0, &value, MAX_TOOL_DEPTH) {
                Ok(mut found) => {
                    append_actions(collected_actions, &mut found);
                    Ok(())
                },
                Err(error) => Err(error),
            },
            Err(_) => Err(ToolError::BadArguments),
        },
    }
}

} // verus!
