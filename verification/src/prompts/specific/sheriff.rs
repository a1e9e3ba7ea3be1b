use crate::actor::BaseActor;
use crate::data::roles::RoleAlignment;
use vstd::prelude::*;
use vstd::string::*;

verus! {

pub open spec fn pick_to_investigate_text() -> Seq<char> {
    "Sheriff, it's now your turn to pick a player to investigate."@
}

pub fn pick_to_investigate() -> (text: &'static str)
    ensures
        text@ == pick_to_investigate_text(),
{
    "Sheriff, it's now your turn to pick a player to investigate."
}

/// What the investigator is told: the truth about the target's alignment.
pub open spec fn investigate_result_text(target: Seq<char>, is_mafia: bool) -> Seq<char> {
    if is_mafia {
        "You chose to investigate "@ + target + ", they are mafia!"@
    } else {
        "You chose to investigate "@ + target + ", they are NOT mafia!"@
    }
}

pub fn investigate_result(actor: &BaseActor) -> (text: String)
    ensures
        text@ == investigate_result_text(actor.name@, actor.role.is_mafia()),
{
    let mut text = String::from_str("You chose to investigate ");
    text.append(actor.name.as_str());
    match actor.role.alignment() {
        RoleAlignment::Mafia => {
            text.append(", they are mafia!");
        },
        _ => {
            text.append(", they are NOT mafia!");
        },
    }
    text
}

} // verus!
