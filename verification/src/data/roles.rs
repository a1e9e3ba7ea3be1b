use vstd::prelude::*;
use vstd::string::*;

verus! {

/// The role a seat plays for the whole game.
#[derive(Debug, Clone, Copy, PartialEq, Eq, Structural)]
pub enum GameRole {
    Villager,
    Mafioso,
    Doctor,
    Sheriff,
}

/// The side a role belongs to: it decides who wins and who hears the mafia channel.
#[derive(Debug, Clone, Copy, PartialEq, Eq, Structural)]
pub enum RoleAlignment {
    Town,
    Mafia,
}

impl GameRole {
    /// The role's name as it is shown to players.
    pub open spec fn name_text(self) -> Seq<char> {
        match self {
            GameRole::Villager => "Villager"@,
            GameRole::Mafioso => "Mafioso"@,
            GameRole::Doctor => "Doctor"@,
            GameRole::Sheriff => "Sheriff"@,
        }
    }

    /// Only the mafioso is aligned with the mafia.
    pub open spec fn spec_alignment(self) -> RoleAlignment {
        match self {
            GameRole::Mafioso => RoleAlignment::Mafia,
            _ => RoleAlignment::Town,
        }
    }

    /// Whether the role is aligned with the mafia.
    pub open spec fn is_mafia(self) -> bool {
        self.spec_alignment() == RoleAlignment::Mafia
    }

    /// The static text that explains the role to its holder.
    pub open spec fn description_text(self) -> Seq<char> {
        match self {
            GameRole::Villager => "Discuss with others during the day and figure out the mafia."@,
            GameRole::Mafioso => "Discuss with fellow mafia at night to plan and vote a player to kill."@,
            GameRole::Doctor => "At night, pick a person to protect from being killed."@,
            GameRole::Sheriff => "At night, investigate a player and see if they are mafia."@,
        }
    }

    pub fn name(&self) -> (text: String)
        ensures
            text@ == self.name_text(),
    {
        match self {
            GameRole::Villager => String::from_str("Villager"),
            GameRole::Mafioso => String::from_str("Mafioso"),
            GameRole::Doctor => String::from_str("Doctor"),
            GameRole::Sheriff => String::from_str("Sheriff"),
        }
    }

    pub fn alignment(&self) -> (side: RoleAlignment)
        ensures
            side == self.spec_alignment(),
    {
        match self {
            GameRole::Mafioso => RoleAlignment::Mafia,
            _ => RoleAlignment::Town,
        }
    }

    pub fn description(&self) -> (text: &'static str)
        ensures
            text@ == self.description_text(),
    {
        match self {
            GameRole::Villager => "Discuss with others during the day and figure out the mafia.",
            GameRole::Mafioso => "Discuss with fellow mafia at night to plan and vote a player to kill.",
            GameRole::Doctor => "At night, pick a person to protect from being killed.",
            GameRole::Sheriff => "At night, investigate a player and see if they are mafia.",
        }
    }
}

} // verus!
