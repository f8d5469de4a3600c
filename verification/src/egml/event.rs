use vstd::prelude::*;

use super::component::Component;

verus! {

/// An input event as the element tree sees it.
#[derive(Clone, Copy, Eq, PartialEq)]
pub enum Event {
    Click(ClickEvent),
    DoubleClick,
}

/// A click on an element.
#[derive(Clone, Copy, Eq, PartialEq)]
pub struct ClickEvent;

/// Turns clicks into messages of a component through a handler.
#[verifier::reject_recursive_types(MSG)]
pub struct ClickListener<F, MSG>(pub F) where F: Fn(ClickEvent) -> MSG + 'static;

impl<F, MSG> ClickListener<F, MSG> where F: Fn(ClickEvent) -> MSG + 'static {
    /// The kind of event this listener answers.
    pub fn kind(&self) -> (r: &'static str)
        ensures
            r@ == "ClickEvent"@,
    {
        proof {
            reveal_strlit("ClickEvent");
        }
        "ClickEvent"
    }

    /// Answers a click with the handler's message and ignores every other
    /// event.
    pub fn handle(&self, event: Event) -> (r: Option<MSG>)
        requires
            event matches Event::Click(e) ==> call_requires(self.0, (e,)),
        ensures
            match event {
                Event::Click(e) => r matches Some(msg) && call_ensures(self.0, (e,), msg),
                Event::DoubleClick => r is None,
            },
    {
        match event {
            Event::Click(event) => Some((self.0)(event)),
            _ => None,
        }
    }
}

/// A universal listener of events, kept by a primitive: it answers an
/// event with a message for the component, or with nothing.
pub trait Listener<M: Component> {
    /// Whether the listener can be asked about `event`.
    spec fn accepts(&self, event: Event) -> bool;

    /// Whether `answer` is what the listener may answer to `event`.
    spec fn answers(&self, event: Event, answer: Option<M::Message>) -> bool;

    /// The name of the kind of event the listener answers.
    spec fn kind_name(&self) -> Seq<char>;

    /// The kind of event the listener answers.
    fn kind(&self) -> (r: &'static str)
        ensures
            r@ == self.kind_name(),
    ;

    /// Answers `event`.
    fn handle(&self, event: Event) -> (r: Option<M::Message>)
        requires
            self.accepts(event),
        ensures
            self.answers(event, r),
    ;
}

impl<T, M> Listener<M> for ClickListener<T, M::Message> where
    M: Component,
    T: Fn(ClickEvent) -> M::Message + 'static,
 {
    open spec fn accepts(&self, event: Event) -> bool {
        event matches Event::Click(e) ==> call_requires(self.0, (e,))
    }

    open spec fn answers(&self, event: Event, answer: Option<M::Message>) -> bool {
        match event {
            Event::Click(e) => answer matches Some(msg) && call_ensures(self.0, (e,), msg),
            Event::DoubleClick => answer is None,
        }
    }

    open spec fn kind_name(&self) -> Seq<char> {
        "ClickEvent"@
    }

    fn kind(&self) -> &'static str {
        ClickListener::kind(self)
    }

    fn handle(&self, event: Event) -> Option<M::Message> {
        ClickListener::handle(self, event)
    }
}

/// The messages among `answers`, in order.
pub open spec fn sent<MSG>(answers: Seq<Option<MSG>>) -> Seq<MSG>
    decreases answers.len(),
{
    if answers.len() == 0 {
        Seq::empty()
    } else {
        let before = sent(answers.drop_last());
        match answers.last() {
            Some(msg) => before.push(msg),
            None => before,
        }
    }
}

/// What a primitive does with a mouse press, given whether the press hit
/// it: on a hit each of its listeners is asked about a click, in order,
/// and every message they answer with is sent, in that order; a press that
/// misses asks no listener and sends nothing.
pub fn answer_press<M: Component, L: Listener<M>>(hit: bool, listeners: &Vec<L>, messages: &mut Vec<M::Message>)
    requires
        hit ==> forall|i: int| 0 <= i < listeners@.len() ==> #[trigger] listeners@[i].accepts(Event::Click(ClickEvent)),
    ensures
        !hit ==> final(messages)@ == old(messages)@,
        hit ==> exists|answers: Seq<Option<M::Message>>|
            answers.len() == listeners@.len()
            && (forall|i: int| 0 <= i < answers.len() ==> #[trigger] listeners@[i].answers(Event::Click(ClickEvent), answers[i]))
            && final(messages)@ == old(messages)@ + sent(answers),
{
    if hit {
        let ghost start = messages@;
        let ghost mut answers: Seq<Option<M::Message>> = Seq::empty();
        let mut i: usize = 0;
        while i < listeners.len()
            invariant
                i <= listeners@.len(),
                answers.len() == i,
                forall|j: int| 0 <= j < listeners@.len() ==> #[trigger] listeners@[j].accepts(Event::Click(ClickEvent)),
                forall|j: int| 0 <= j < i ==> #[trigger] listeners@[j].answers(Event::Click(ClickEvent), answers[j]),
                messages@ == start + sent(answers),
            decreases listeners@.len() - i,
        {
            let answer = listeners[i].handle(Event::Click(ClickEvent));
            proof {
                let next = answers.push(answer);
                assert(next.drop_last() == answers);
                answers = next;
            }
            match answer {
                Some(msg) => {
                    messages.push(msg);
                },
                None => {},
            }
            i = i + 1;
        }
        assert(forall|j: int| 0 <= j < answers.len() ==> #[trigger] listeners@[j].answers(Event::Click(ClickEvent), answers[j]));
    }
}

/// Builds a listener that answers clicks with `handler`.
pub fn onclick<F, MSG>(handler: F) -> (r: ClickListener<F, MSG>) where
    MSG: 'static,
    F: Fn(ClickEvent) -> MSG + 'static,

    ensures
        r.0 == handler,
{
    ClickListener(handler)
}

} // verus!
