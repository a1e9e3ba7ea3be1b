use crate::actor::BaseActor;
use vstd::prelude::*;
use vstd::string::*;

verus! {

pub open spec fn pick_to_protect_text() -> Seq<char> {
    "Doctor, it's now your turn to pick a player to protect."@
}

pub fn pick_to_protect() -> (text: &'static str)
    ensures
        text@ == pick_to_protect_text(),
{
    "Doctor, it's now your turn to pick a player to protect."
}

pub open spec fn you_chose_to_protect_text(target: Seq<char>) -> Seq<char> {
    "You chose to protect "@ + target + "."@
}

pub fn you_chose_to_protect(target: &BaseActor) -> (text: String)
    ensures
        text@ == you_chose_to_protect_text(target.name@),
{
    let mut text = String::from_str("You chose to protect ");
    text.append(target.name.as_str());
    text.append(".");
    text
}

pub open spec fn target_protected_text(target: Seq<char>) -> Seq<char> {
    "An attempt was made on "@ + target + "'s life... but they were protected by a doctor!"@
}

pub fn target_protected(target: &BaseActor) -> (text: String)
    ensures
        text@ == target_protected_text(target.name@),
{
    let mut text = String::from_str("An attempt was made on ");
    text.append(target.name.as_str());
    text.append("'s life... but they were protected by a doctor!");
    text
}

} // verus!
