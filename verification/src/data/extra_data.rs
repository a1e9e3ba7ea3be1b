use crate::data::channel::Channel;
use vstd::prelude::*;

verus! {

/// A tag on a log entry or on a seat. On a log entry every tag is a condition
/// on who may read the entry; on a seat the tags are the flags of the current
/// round.
#[derive(Debug, Clone, Copy, PartialEq, Eq, Structural)]
pub enum ExtraData {
    Dead,
    ProtectedByDoctor,
    WhisperMetadata { from: u8, to: u8 },
    SaidInChannel(Channel),
}

impl ExtraData {
    /// Whether this tag lets the viewer read the entry that carries it. A
    /// whisper's tag hides the entry from both parties; a channel admits its
    /// audience; any other tag hides the entry from everyone.
    pub open spec fn admits(self, viewer: u8, viewer_is_mafia: bool, include_raw: bool) -> bool {
        match self {
            ExtraData::WhisperMetadata { from, to } => !(viewer == from || viewer == to),
            ExtraData::SaidInChannel(channel) => channel.heard_by(
                viewer,
                viewer_is_mafia,
                include_raw,
            ),
            _ => false,
        }
    }

    pub fn is_admitting(&self, viewer: u8, viewer_is_mafia: bool, include_raw: bool) -> (open: bool)
        ensures
            open == self.admits(viewer, viewer_is_mafia, include_raw),
    {
        match self {
            ExtraData::WhisperMetadata { from, to } => !(viewer == *from || viewer == *to),
            ExtraData::SaidInChannel(channel) => channel.is_heard_by(
                viewer,
                viewer_is_mafia,
                include_raw,
            ),
            _ => false,
        }
    }
}

/// A copy of a list of tags.
pub fn copy_tags(tags: &Vec<ExtraData>) -> (copy: Vec<ExtraData>)
    ensures
        copy@ == tags@,
{
    let mut copy: Vec<ExtraData> = Vec::new();
    let mut i: usize = 0;
    while i < tags.len()
        invariant
            i <= tags.len(),
            copy@ == tags@.take(i as int),
        decreases tags.len() - i,
    {
        copy.push(tags[i]);
        i = i + 1;
    }
    copy
}

} // verus!
