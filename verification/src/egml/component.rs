use vstd::prelude::*;

use super::change_view::{stronger, ChangeView};
use super::node::{Comp, Node};

verus! {

/// A message a component can receive.
pub trait ComponentMessage: Clone + 'static {}

impl<T: Clone + 'static> ComponentMessage for T {}

/// The properties a component is created with.
pub trait ComponentProperties: Clone + PartialEq + Default + 'static {}

impl<T: Clone + PartialEq + Default + 'static> ComponentProperties for T {}

/// An interface of a UI component. Uses `self` as a model.
pub trait Component: Sized + 'static {
    /// Control message type which the `update` loop gets.
    type Message: ComponentMessage;

    /// Properties type of the component.
    type Properties: ComponentProperties;

    /// Creates the model from its properties.
    fn create(props: &Self::Properties) -> Self;

    /// Whether the model `self`, on receiving `msg`, may answer `answer` and
    /// become `after`. A model that says nothing of its updates allows any.
    open spec fn updates(self, msg: Self::Message, answer: ChangeView, after: Self) -> bool {
        true
    }

    /// Called every time a message is received; answers what the view
    /// needs.
    fn update(&mut self, msg: Self::Message) -> (r: ChangeView)
        ensures
            old(self).updates(msg, r, *final(self)),
    ;

    /// Called when the properties change.
    fn change(&mut self, props: Self::Properties) -> ChangeView;

    /// Called at the end of the component's lifetime.
    fn destroy(&mut self) {
    }
}

/// An interface of a UI component whose update only says whether the
/// view should change.
pub trait ModelComponent: Sized + 'static {
    /// Control message type which the `update` loop gets.
    type Message: 'static;

    /// Properties type of the component.
    type Properties: Clone + PartialEq + Default;

    /// Creates the model from its properties.
    fn create(props: &Self::Properties) -> Self;

    /// Called every time a message is received; answers whether the view
    /// should change.
    fn update(&mut self, msg: Self::Message) -> bool;

    /// Called when the properties change.
    fn change(&mut self, props: Self::Properties) -> bool;

    /// Called at the end of the component's lifetime.
    fn destroy(&mut self) {
    }
}

/// A model that builds its view as a tree of nodes.
pub trait Viewable<S, C> {
    /// Builds the view of the model.
    fn view(&self) -> Node<S, C>;
}

/// A component that builds its own view.
pub trait ViewableComponent<S, C>: Component + Viewable<S, C> {}

impl<S, C, T: Component + Viewable<S, C>> ViewableComponent<S, C> for T {}

/// Something that can be a node of a view.
pub trait Nodeable: 'static {}

impl<S: 'static, C: 'static> Nodeable for Node<S, C> {}

/// Converts a property on behalf of a component and attaches lazy
/// components to it.
pub trait Transformer<M: Component, FROM, TO> {
    /// Whether `to` is what transforming `from` gives.
    spec fn transforms(from: FROM, to: TO) -> bool;

    /// Transforms one type to another.
    fn transform(&mut self, from: FROM) -> (to: TO)
        ensures
            Self::transforms(from, to),
    ;
}

impl<M, T, C> Transformer<M, T, T> for Comp<C> where M: Component {
    open spec fn transforms(from: T, to: T) -> bool {
        to == from
    }

    fn transform(&mut self, from: T) -> T
        returns
            from,
    {
        from
    }
}

impl<'a, M, T, C> Transformer<M, &'a T, T> for Comp<C> where M: Component, T: Clone {
    open spec fn transforms(from: &'a T, to: T) -> bool {
        cloned::<T>(*from, to)
    }

    fn transform(&mut self, from: &'a T) -> T {
        from.clone()
    }
}

impl<M, T, C> Transformer<M, T, Option<T>> for Comp<C> where M: Component {
    open spec fn transforms(from: T, to: Option<T>) -> bool {
        to == Some(from)
    }

    fn transform(&mut self, from: T) -> Option<T>
        returns
            Some(from),
    {
        Some(from)
    }
}

impl<'a, M, C> Transformer<M, &'a str, String> for Comp<C> where M: Component {
    open spec fn transforms(from: &'a str, to: String) -> bool {
        to@ == from@
    }

    fn transform(&mut self, from: &'a str) -> String {
        from.to_owned()
    }
}

impl<'a, M, C> Transformer<M, &'a str, Option<String>> for Comp<C> where M: Component {
    open spec fn transforms(from: &'a str, to: Option<String>) -> bool {
        to matches Some(own) && own@ == from@
    }

    fn transform(&mut self, from: &'a str) -> Option<String> {
        Some(from.to_owned())
    }
}

/// The request that a batch of answers adds up to: each answer raises the
/// request, starting from `NoChange`.
pub open spec fn combined(changes: Seq<ChangeView>) -> ChangeView
    decreases changes.len(),
{
    if changes.len() == 0 {
        ChangeView::NoChange
    } else {
        stronger(combined(changes.drop_last()), changes.last())
    }
}

impl ChangeView {
    /// Adds up the answers a model gave to a batch of messages.
    pub fn combine(changes: &[ChangeView]) -> (r: ChangeView)
        ensures
            r == combined(changes@),
    {
        let mut acc = ChangeView::NoChange;
        let mut i: usize = 0;
        while i < changes.len()
            invariant
                i <= changes@.len(),
                acc == combined(changes@.take(i as int)),
            decreases changes@.len() - i,
        {
            assert(changes@.take(i as int + 1).drop_last() == changes@.take(i as int));
            acc.up(changes[i]);
            i += 1;
        }
        assert(changes@.take(changes@.len() as int) == changes@);
        acc
    }
}

/// `answers` and `models` trace `msgs` handed to `model` one after the
/// other: the model goes through `models`, starting from `model`, and each
/// message gets its answer as the model that received it allows.
pub open spec fn traces<M: Component>(model: M, msgs: Seq<M::Message>, answers: Seq<ChangeView>, models: Seq<M>) -> bool {
    &&& answers.len() == msgs.len()
    &&& models.len() == msgs.len() + 1
    &&& models[0] == model
    &&& forall|i: int| 0 <= i < msgs.len() ==> #[trigger] models[i].updates(msgs[i], answers[i], models[i + 1])
}

/// Hands each message to the model in turn, in order, and adds up what the
/// model asked of its view.
pub fn update_all<M: Component>(model: &mut M, msgs: Vec<M::Message>) -> (r: ChangeView)
    ensures
        exists|answers: Seq<ChangeView>, models: Seq<M>|
            traces(*old(model), msgs@, answers, models) && models.last() == *final(model) && r == combined(answers),
{
    let ghost all = msgs@;
    let ghost start = *model;
    let ghost mut models: Seq<M> = seq![*model];
    let mut answers: Vec<ChangeView> = Vec::new();
    for msg in iter: msgs
        invariant
            iter.seq() == all,
            models[0] == start,
            traces(start, all.take(iter.index() as int), answers@, models),
            models.last() == *model,
    {
        let ghost before = *model;
        let ghost k = iter.index() as int;
        let answer = model.update(msg);
        answers.push(answer);
        proof {
            assert(msg == all[k]);
            let next = models.push(*model);
            assert forall|i: int| 0 <= i < k + 1 implies #[trigger] next[i].updates(all.take(k + 1)[i], answers@[i], next[i + 1]) by {
                if i < k {
                    assert(all.take(k + 1)[i] == all.take(k)[i]);
                    assert(models[i].updates(all.take(k)[i], answers@[i], models[i + 1]));
                }
            }
            models = next;
        }
    }
    assert(all.take(all.len() as int) == all);
    let r = ChangeView::combine(answers.as_slice());
    assert(traces(start, all, answers@, models) && models.last() == *model && r == combined(answers@));
    r
}

} // verus!
