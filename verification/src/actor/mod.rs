use crate::data::extra_data::ExtraData;
use crate::data::roles::GameRole;
use crate::llm::ai_interface::AIInterface;
use vstd::prelude::*;

pub mod real_actor;

verus! {

/// Who answers for a seat: a human at the input box, or a language model.
#[derive(Debug, Clone, PartialEq, Eq)]
pub enum ActorKind {
    Real,
    Llm(AIInterface),
}

/// One seat of the game.
#[derive(Debug, Clone, PartialEq, Eq)]
pub struct BaseActor {
    pub dead: bool,
    pub name: String,
    pub id: u8,
    pub kind: ActorKind,
    pub extra_data: Vec<ExtraData>,
    pub role: GameRole,
}

/// A seat as a mathematical value.
pub struct ActorView {
    pub dead: bool,
    pub name: Seq<char>,
    pub id: u8,
    pub kind: ActorKind,
    pub extra_data: Seq<ExtraData>,
    pub role: GameRole,
}

impl View for BaseActor {
    type V = ActorView;

    open spec fn view(&self) -> ActorView {
        ActorView {
            dead: self.dead,
            name: self.name@,
            id: self.id,
            kind: self.kind,
            extra_data: self.extra_data@,
            role: self.role,
        }
    }
}

/// The views of a roster, in order.
pub open spec fn actor_views(actors: Seq<BaseActor>) -> Seq<ActorView> {
    Seq::new(actors.len(), |i: int| actors[i]@)
}

impl ActorView {
    /// Whether the seat carries the doctor's protection in this round.
    pub open spec fn is_protected(self) -> bool {
        self.extra_data.contains(ExtraData::ProtectedByDoctor)
    }
}

impl BaseActor {
    /// Whether the seat carries the doctor's protection in this round.
    pub open spec fn is_protected(self) -> bool {
        self@.is_protected()
    }

    pub fn protected(&self) -> (protected: bool)
        ensures
            protected == self.is_protected(),
    {
        let mut i: usize = 0;
        while i < self.extra_data.len()
            invariant
                i <= self.extra_data.len(),
                forall|k: int| 0 <= k < i ==> self.extra_data@[k] != ExtraData::ProtectedByDoctor,
            decreases self.extra_data.len() - i,
        {
            if self.extra_data[i] == ExtraData::ProtectedByDoctor {
                return true;
            }
            i = i + 1;
        }
        false
    }
}

} // verus!
