use vstd::prelude::*;

verus! {

/// The scope in which something was said.
#[derive(Debug, Clone, Copy, PartialEq, Eq, Structural)]
pub enum Channel {
    /// Heard by everyone.
    Global,
    /// Heard by mafia-aligned seats only.
    Mafia,
    /// Heard by one seat only.
    ToSelf(u8),
    /// Unfiltered agent output: shown to one seat, and only on request.
    Raw(u8),
}

impl Channel {
    /// Whether a viewer hears what was said in this channel.
    pub open spec fn heard_by(self, viewer: u8, viewer_is_mafia: bool, include_raw: bool) -> bool {
        match self {
            Channel::Global => true,
            Channel::Mafia => viewer_is_mafia,
            Channel::ToSelf(id) => id == viewer,
            Channel::Raw(id) => include_raw && id == viewer,
        }
    }

    pub fn is_heard_by(&self, viewer: u8, viewer_is_mafia: bool, include_raw: bool) -> (heard: bool)
        ensures
            heard == self.heard_by(viewer, viewer_is_mafia, include_raw),
    {
        match self {
            Channel::Global => true,
            Channel::Mafia => viewer_is_mafia,
            Channel::ToSelf(id) => *id == viewer,
            Channel::Raw(id) => include_raw && *id == viewer,
        }
    }
}

} // verus!
