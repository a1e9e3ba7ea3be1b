use crate::actor::BaseActor;
use crate::prompts::general::seat_lines;
use vstd::prelude::*;
use vstd::string::*;

verus! {

pub open spec fn build_mafia_list_text(mafias: Seq<(Seq<char>, u8)>) -> Seq<char> {
    "As a mafia, you know your fellow mafia:"@ + seat_lines(mafias)
}

pub fn build_mafia_list(mafias: &[&BaseActor]) -> (text: String)
    ensures
        text@ == build_mafia_list_text(
            Seq::new(mafias@.len(), |i: int| (mafias@[i].name@, mafias@[i].id)),
        ),
{
    let mut text = String::from_str("As a mafia, you know your fellow mafia:");
    let ghost head = text@;
    let ghost all = Seq::new(mafias@.len(), |i: int| (mafias@[i].name@, mafias@[i].id));
    let mut i: usize = 0;
    assert(all.take(0) == Seq::<(Seq<char>, u8)>::empty());
    while i < mafias.len()
        invariant
            i <= mafias.len(),
            all == Seq::new(mafias@.len(), |i: int| (mafias@[i].name@, mafias@[i].id)),
            text@ == head + seat_lines(all.take(i as int)),
        decreases mafias.len() - i,
    {
        let mafia = mafias[i];
        assert(all.take(i + 1).drop_last() == all.take(i as int));
        let mut line = String::from_str("\n");
        line.append(mafia.name.as_str());
        line.append(" (ID ");
        line.append(crate::text::decimal(mafia.id).as_str());
        line.append(")");
        text.append(line.as_str());
        i = i + 1;
    }
    assert(all.take(mafias.len() as int) == all);
    text
}

pub open spec fn mafia_discussion_begin_text() -> Seq<char> {
    "Mafia, it's now your turn to discuss. You are now in a private channel--nobody else but your fellow mafia can hear you. You can not only use this opportunity to discuss potential targets, but also plan ahead with your fellow mafia. Remember that you cannot vote during the discussion."@
}

pub fn mafia_discussion_begin() -> (text: &'static str)
    ensures
        text@ == mafia_discussion_begin_text(),
{
    "Mafia, it's now your turn to discuss. You are now in a private channel--nobody else but your fellow mafia can hear you. You can not only use this opportunity to discuss potential targets, but also plan ahead with your fellow mafia. Remember that you cannot vote during the discussion."
}

} // verus!
