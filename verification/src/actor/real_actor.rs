//! The human at the input box: the commands that a submission may hold.

use crate::data::action::{action_views, lemma_bundle_view, Action, ActionView};
use crate::text::{
    after_prefix, chars_of, first_index_of, lemma_first_index_is, parse_u8, parsed_u8, same_text,
    slice_of, split_at_first, split_once, strip_prefix, text_of, trim, trimmed,
};
use vstd::prelude::*;

verus! {

/// The action that a line of a submission stands for, if it is a command.
/// White space around the line does not count. The commands are `!abstain`,
/// `!tag` with an id, `!whisper` with an id and a message, `!talk` with a
/// message and `!provide_id` with an id; an id is a number below 256.
pub open spec fn command_of(line: Seq<char>) -> Option<ActionView> {
    let line = trimmed(line);
    if line == "!abstain"@ {
        Some(ActionView::Abstain)
    } else if after_prefix(line, "!tag "@) is Some {
        match parsed_u8(trimmed(after_prefix(line, "!tag "@)->0)) {
            Some(id) => Some(ActionView::TagPlayerForComment { id }),
            None => None,
        }
    } else if after_prefix(line, "!whisper "@) is Some {
        match split_at_first(after_prefix(line, "!whisper "@)->0, ' ') {
            Some((id, message)) => match parsed_u8(id) {
                Some(to) => Some(ActionView::Whisper { to, message }),
                None => None,
            },
            None => None,
        }
    } else if after_prefix(line, "!talk "@) is Some {
        Some(ActionView::Talk(after_prefix(line, "!talk "@)->0))
    } else if after_prefix(line, "!provide_id "@) is Some {
        match parsed_u8(trimmed(after_prefix(line, "!provide_id "@)->0)) {
            Some(id) => Some(ActionView::ProvideID(id)),
            None => None,
        }
    } else {
        None
    }
}

/// The commands of a submission, line by line; lines that are no commands
/// are dropped.
pub open spec fn commands_in(text: Seq<char>) -> Seq<ActionView>
    decreases text.len(),
{
    if text.len() == 0 {
        Seq::empty()
    } else {
        let at = first_index_of(text, '\n') as int;
        let rest = if at < text.len() {
            text.skip(at + 1)
        } else {
            Seq::empty()
        };
        match command_of(text.take(at)) {
            Some(action) => seq![action] + commands_in(rest),
            None => commands_in(rest),
        }
    }
}

/// The action that a submission stands for: its one command, or the bundle
/// of its commands, or nothing where it holds no command.
pub open spec fn submission_of(text: Seq<char>) -> Option<ActionView> {
    let commands = commands_in(text);
    if commands.len() == 0 {
        None
    } else if commands.len() == 1 {
        Some(commands[0])
    } else {
        Some(ActionView::MultiCall(commands))
    }
}

fn parse_line(line: &Vec<char>) -> (action: Option<Action>)
    ensures
        match action {
            Some(a) => command_of(line@) == Some(a@),
            None => command_of(line@) is None,
        },
{
    let line = trim(line);
    if same_text(&line, "!abstain") {
        return Some(Action::Abstain);
    }
    if let Some(rest) = strip_prefix(&line, "!tag ") {
        return match parse_u8(&trim(&rest)) {
            Some(id) => Some(Action::TagPlayerForComment { id }),
            None => None,
        };
    }
    if let Some(rest) = strip_prefix(&line, "!whisper ") {
        return match split_once(&rest, ' ') {
            Some((id, message)) => match parse_u8(&id) {
                Some(to) => Some(Action::Whisper { to, message: text_of(&message) }),
                None => None,
            },
            None => None,
        };
    }
    if let Some(rest) = strip_prefix(&line, "!talk ") {
        return Some(Action::Talk(text_of(&rest)));
    }
    if let Some(rest) = strip_prefix(&line, "!provide_id ") {
        return match parse_u8(&trim(&rest)) {
            Some(id) => Some(Action::ProvideID(id)),
            None => None,
        };
    }
    None
}

/// The action that a line stands for, if it is a command.
pub fn parse_real_command(line: &str) -> (action: Option<Action>)
    ensures
        match action {
            Some(a) => command_of(line@) == Some(a@),
            None => command_of(line@) is None,
        },
{
    parse_line(&chars_of(line))
}

/// The action that a submission stands for, or nothing where no line of it
/// is a command: then the human is to be asked again.
pub fn parse_submission(text: &str) -> (action: Option<Action>)
    ensures
        match action {
            Some(a) => submission_of(text@) == Some(a@),
            None => submission_of(text@) is None,
        },
{
    let chars = chars_of(text);
    let n = chars.len();
    let mut found: Vec<Action> = Vec::new();
    let mut from: usize = 0;
    assert(chars@.skip(0) == chars@);
    while from < n
        invariant
            from <= n == chars.len(),
            chars@ == text@,
            commands_in(chars@) == action_views(found@) + commands_in(chars@.skip(from as int)),
        decreases n - from,
    {
        let mut to: usize = from;
        while to < n && chars[to] != '\n'
            invariant
                from <= to <= n == chars.len(),
                forall|k: int| from <= k < to ==> chars@[k] != '\n',
            decreases n - to,
        {
            to = to + 1;
        }
        let ghost rest = chars@.skip(from as int);
        proof {
            assert forall|k: int| 0 <= k < to - from implies rest[k] != '\n' by {
                assert(rest[k] == chars@[from + k]);
            }
            lemma_first_index_is(rest, '\n', to - from);
            assert(rest.take(to - from) == chars@.subrange(from as int, to as int));
            if to < n {
                assert(rest.skip(to - from + 1) == chars@.skip(to + 1));
            } else {
                assert(chars@.skip(n as int) == Seq::<char>::empty());
            }
        }
        let line = slice_of(&chars, from, to);
        let ghost before = found@;
        match parse_line(&line) {
            Some(action) => {
                found.push(action);
                assert(action_views(found@) == action_views(before) + seq![action@]);
            },
            None => {},
        }
        from = if to < n {
            to + 1
        } else {
            n
        };
    }
    assert(commands_in(chars@.skip(n as int)) == Seq::<ActionView>::empty());
    assert(commands_in(text@) == action_views(found@));
    if found.len() == 0 {
        None
    } else if found.len() == 1 {
        found.pop()
    } else {
        proof {
            lemma_bundle_view(found);
        }
        Some(Action::MultiCall(found))
    }
}

/// A seat that a human controls.
#[derive(Debug, Clone, Copy, PartialEq, Eq, Structural)]
pub struct RealActor;

impl RealActor {
    /// The action that a line stands for, if it is a command.
    pub fn parse_command(line: &str) -> (action: Option<Action>)
        ensures
            match action {
                Some(a) => command_of(line@) == Some(a@),
                None => command_of(line@) is None,
            },
    {
        parse_real_command(line)
    }
}

} // verus!
