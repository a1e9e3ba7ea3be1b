use vstd::prelude::*;

verus! {

/// What a seat asks the engine to do in its turn.
#[derive(Debug, PartialEq, Eq)]
pub enum Action {
    Abstain,
    Whisper { to: u8, message: String },
    TagPlayerForComment { id: u8 },
    ProvideID(u8),
    Talk(String),
    MultiCall(Vec<Action>),
}

/// An action as a mathematical value.
pub enum ActionView {
    Abstain,
    Whisper { to: u8, message: Seq<char> },
    TagPlayerForComment { id: u8 },
    ProvideID(u8),
    Talk(Seq<char>),
    MultiCall(Seq<ActionView>),
}

impl View for Action {
    type V = ActionView;

    open spec fn view(&self) -> ActionView
        decreases self,
    {
        match self {
            Action::Abstain => ActionView::Abstain,
            Action::Whisper { to, message } => ActionView::Whisper { to: *to, message: message@ },
            Action::TagPlayerForComment { id } => ActionView::TagPlayerForComment { id: *id },
            Action::ProvideID(id) => ActionView::ProvideID(*id),
            Action::Talk(message) => ActionView::Talk(message@),
            Action::MultiCall(items) => ActionView::MultiCall(
                Seq::new(
                    items@.len(),
                    |i: int|
                        if 0 <= i < items@.len() {
                            items@[i].view()
                        } else {
                            ActionView::Abstain
                        },
                ),
            ),
        }
    }
}

/// The views of a list of actions, in order.
pub open spec fn action_views(actions: Seq<Action>) -> Seq<ActionView> {
    Seq::new(actions.len(), |i: int| actions[i]@)
}

impl Clone for Action {
    fn clone(&self) -> (copy: Self)
        ensures
            copy@ == self@,
    {
        self.duplicate()
    }
}

impl ActionView {
    /// The actions that are no bundles, in the order in which a bundle and the
    /// bundles within it list them.
    pub open spec fn leaves(self) -> Seq<ActionView>
        decreases self,
    {
        match self {
            ActionView::MultiCall(items) => Self::leaves_of(items),
            _ => seq![self],
        }
    }

    /// The leaves of several actions, one after the other.
    pub open spec fn leaves_of(items: Seq<ActionView>) -> Seq<ActionView>
        decreases items,
    {
        if items.len() == 0 {
            Seq::empty()
        } else {
            Self::leaves_of(items.drop_last()) + items.last().leaves()
        }
    }

    /// Whether the action is a bundle.
    pub open spec fn is_bundle(self) -> bool {
        self is MultiCall
    }
}

/// The view of a bundle is the bundle of its items' views.
pub proof fn lemma_bundle_view(items: Vec<Action>)
    ensures
        Action::MultiCall(items)@ == ActionView::MultiCall(action_views(items@)),
{
    reveal_with_fuel(<Action as View>::view, 2);
    let bundle = Action::MultiCall(items)@;
    assert(bundle->MultiCall_0 =~= action_views(items@));
}

impl Action {
    /// A copy of an action that is no bundle; of a bundle, an empty bundle.
    fn copy_leaf(&self) -> (copy: Action)
        ensures
            !(self@ is MultiCall) ==> copy@ == self@,
    {
        match self {
            Action::Abstain => Action::Abstain,
            Action::Whisper { to, message } => Action::Whisper { to: *to, message: message.clone() },
            Action::TagPlayerForComment { id } => Action::TagPlayerForComment { id: *id },
            Action::ProvideID(id) => Action::ProvideID(*id),
            Action::Talk(message) => Action::Talk(message.clone()),
            Action::MultiCall(_) => Action::MultiCall(Vec::new()),
        }
    }

    fn collect_leaves(&self, out: &mut Vec<Action>)
        ensures
            action_views(final(out)@) == action_views(old(out)@) + self@.leaves(),
        decreases self,
    {
        match self {
            Action::MultiCall(items) => {
                let ghost before = action_views(out@);
                let ghost views = action_views(items@);
                proof {
                    lemma_bundle_view(*items);
                }
                let mut i: usize = 0;
                assert(views.take(0) == Seq::<ActionView>::empty());
                while i < items.len()
                    invariant
                        i <= items.len(),
                        *self is MultiCall && self->MultiCall_0 == *items,
                        views == action_views(items@),
                        action_views(out@) == before + ActionView::leaves_of(views.take(i as int)),
                    decreases items.len() - i,
                {
                    assert(decreases_to!(*self => self->MultiCall_0));
                    assert(decreases_to!(*items => items[i as int]));
                    items[i].collect_leaves(out);
                    proof {
                        assert(views.take(i + 1).drop_last() == views.take(i as int));
                        assert(views.take(i + 1).last() == items@[i as int]@);
                    }
                    i = i + 1;
                }
                assert(views.take(items.len() as int) == views);
            },
            _ => {
                let ghost before = out@;
                let leaf = self.copy_leaf();
                out.push(leaf);
                assert(action_views(out@) == action_views(before) + seq![self@]);
            },
        }
    }

    /// A copy of the action.
    pub fn duplicate(&self) -> (copy: Action)
        ensures
            copy@ == self@,
        decreases self,
    {
        match self {
            Action::MultiCall(items) => {
                let mut copies: Vec<Action> = Vec::new();
                let mut i: usize = 0;
                while i < items.len()
                    invariant
                        i <= items.len(),
                        *self is MultiCall && self->MultiCall_0 == *items,
                        action_views(copies@) == action_views(items@).take(i as int),
                    decreases items.len() - i,
                {
                    let ghost before = copies@;
                    assert(decreases_to!(*self => self->MultiCall_0));
                    assert(decreases_to!(*items => items[i as int]));
                    let item = items[i].duplicate();
                    copies.push(item);
                    assert(action_views(copies@) == action_views(before).push(items@[i as int]@));
                    assert(action_views(items@).take(i + 1) == action_views(items@).take(
                        i as int,
                    ).push(items@[i as int]@));
                    i = i + 1;
                }
                assert(action_views(items@).take(items.len() as int) == action_views(items@));
                proof {
                    lemma_bundle_view(copies);
                    lemma_bundle_view(*items);
                }
                Action::MultiCall(copies)
            },
            _ => self.copy_leaf(),
        }
    }

    /// The actions in this one that are no bundles, in order.
    pub fn leaves(&self) -> (out: Vec<Action>)
        ensures
            action_views(out@) == self@.leaves(),
    {
        let mut out: Vec<Action> = Vec::new();
        self.collect_leaves(&mut out);
        out
    }
}

} // verus!
