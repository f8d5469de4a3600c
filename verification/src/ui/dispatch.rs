use vstd::prelude::*;

use super::listener::{event_name_of, EventName, ListenerKind};

verus! {

/// The kinds of system message a primitive hands to its listeners.
#[derive(Debug, Clone, Copy, PartialEq, Eq, Structural)]
pub enum MessageKind {
    WindowResized,
    Draw,
    MouseDown,
    KeyDown,
    KeyUp,
    Char,
}

/// The one kind of listener that answers a message of kind `message`.
pub open spec fn answering_kind(message: MessageKind) -> ListenerKind {
    match message {
        MessageKind::WindowResized => ListenerKind::WindowResized,
        MessageKind::Draw => ListenerKind::Draw,
        MessageKind::MouseDown => ListenerKind::OnMouseDown,
        MessageKind::KeyDown => ListenerKind::OnKeyDown,
        MessageKind::KeyUp => ListenerKind::OnKeyUp,
        MessageKind::Char => ListenerKind::OnInputChar,
    }
}

/// The positions, in registration order, of the listeners in `kinds` that
/// are of kind `kind`.
pub open spec fn positions_of(kinds: Seq<ListenerKind>, kind: ListenerKind) -> Seq<int>
    decreases kinds.len(),
{
    if kinds.len() == 0 {
        Seq::empty()
    } else {
        let before = positions_of(kinds.drop_last(), kind);
        if kinds.last() == kind {
            before.push(kinds.len() - 1)
        } else {
            before
        }
    }
}

impl MessageKind {
    /// The kind of listener that answers this message.
    pub fn listener_kind(&self) -> (r: ListenerKind)
        ensures
            r == answering_kind(*self),
    {
        match self {
            MessageKind::WindowResized => ListenerKind::WindowResized,
            MessageKind::Draw => ListenerKind::Draw,
            MessageKind::MouseDown => ListenerKind::OnMouseDown,
            MessageKind::KeyDown => ListenerKind::OnKeyDown,
            MessageKind::KeyUp => ListenerKind::OnKeyUp,
            MessageKind::Char => ListenerKind::OnInputChar,
        }
    }

    /// The name under which the listeners for this message are looked up.
    pub fn event_name(&self) -> (r: EventName)
        ensures
            r.chars() == event_name_of(answering_kind(*self)),
    {
        self.listener_kind().event_name()
    }
}

/// The positions of the listeners, among those registered under a message's
/// event name, that are called for that message, in the order they are
/// called: every listener of the answering kind, once, in registration
/// order; no other.
pub fn answering(kinds: &Vec<ListenerKind>, message: MessageKind) -> (r: Vec<usize>)
    ensures
        r@.map_values(|p: usize| p as int) == positions_of(kinds@, answering_kind(message)),
{
    let kind = message.listener_kind();
    let mut r: Vec<usize> = Vec::new();
    let mut i: usize = 0;
    while i < kinds.len()
        invariant
            i <= kinds.len(),
            kind == answering_kind(message),
            r@.map_values(|p: usize| p as int) == positions_of(kinds@.take(i as int), kind),
        decreases kinds.len() - i,
    {
        let ghost before = r@;
        assert(kinds@.take(i as int + 1).drop_last() == kinds@.take(i as int));
        if kinds[i] == kind {
            r.push(i);
            assert(r@ == before.push(i));
            assert(r@.map_values(|p: usize| p as int) == before.map_values(|p: usize| p as int).push(
                i as int,
            ));
        }
        i = i + 1;
    }
    assert(kinds@.take(kinds.len() as int) == kinds@);
    r
}

/// A listener a primitive holds for system messages; it is called with
/// the event `E` that comes with a message and answers with a message `M`
/// for its component.
pub trait SystemListener<M, E> {
    /// Whether `msg` is what the listener may answer `event` with. A
    /// listener that says nothing of its answers allows any.
    open spec fn answers(&self, event: E, msg: M) -> bool {
        true
    }

    /// Answers `event`.
    fn answer(&self, event: E) -> (msg: M)
        ensures
            self.answers(event, msg),
    ;
}

/// Hands a system message to the listeners of a primitive registered under
/// the message's event name, whose kinds are `kinds`: a mouse-down that
/// does not hit the primitive calls none of them and sends nothing;
/// otherwise every listener of the answering kind is called once, in
/// registration order, with `event`, and its answers are appended to
/// `outputs` in that order.
pub fn dispatch<M, E: Copy, L: SystemListener<M, E>>(
    kinds: &Vec<ListenerKind>,
    listeners: &Vec<L>,
    message: MessageKind,
    event: E,
    hit: bool,
    outputs: &mut Vec<M>,
)
    requires
        kinds@.len() == listeners@.len(),
    ensures
        message == MessageKind::MouseDown && !hit ==> final(outputs)@ == old(outputs)@,
        !(message == MessageKind::MouseDown && !hit) ==> exists|msgs: Seq<M>|
            msgs.len() == positions_of(kinds@, answering_kind(message)).len() && (forall|k: int|
                0 <= k < msgs.len() ==> listeners@[positions_of(kinds@, answering_kind(message))[k]].answers(
                    event,
                    #[trigger] msgs[k],
                )) && final(outputs)@ == old(outputs)@ + msgs,
{
    if message == MessageKind::MouseDown && !hit {
        return;
    }
    let ghost start = outputs@;
    let positions = answering(kinds, message);
    let ghost picked = positions_of(kinds@, answering_kind(message));
    proof {
        lemma_positions_exact(kinds@, answering_kind(message));
        assert(positions@.len() == picked.len());
        assert forall|k: int| 0 <= k < positions@.len() implies #[trigger] positions@[k] as int == picked[k] by {
            assert(positions@.map_values(|p: usize| p as int)[k] == positions@[k] as int);
        }
    }
    let ghost mut msgs: Seq<M> = Seq::empty();
    let mut k: usize = 0;
    while k < positions.len()
        invariant
            k <= positions@.len(),
            positions@.len() == picked.len(),
            kinds@.len() == listeners@.len(),
            forall|j: int| 0 <= j < positions@.len() ==> #[trigger] positions@[j] as int == picked[j],
            forall|j: int| 0 <= j < picked.len() ==> 0 <= #[trigger] picked[j] < kinds@.len(),
            msgs.len() == k,
            forall|j: int| 0 <= j < k ==> listeners@[picked[j]].answers(event, #[trigger] msgs[j]),
            outputs@ == start + msgs,
        decreases positions@.len() - k,
    {
        let idx = positions[k];
        assert(positions@[k as int] as int == picked[k as int]);
        let msg = listeners[idx].answer(event);
        proof {
            msgs = msgs.push(msg);
        }
        outputs.push(msg);
        k += 1;
    }
}

/// What `positions_of` picks: each position holds a listener of the kind,
/// positions rise strictly, and every listener of the kind is picked.
pub proof fn lemma_positions_exact(kinds: Seq<ListenerKind>, kind: ListenerKind)
    ensures
        forall|j: int|
            0 <= j < positions_of(kinds, kind).len() ==> 0 <= #[trigger] positions_of(kinds, kind)[j]
                < kinds.len() && kinds[positions_of(kinds, kind)[j]] == kind,
        forall|j: int, k: int|
            0 <= j < k < positions_of(kinds, kind).len() ==> #[trigger] positions_of(kinds, kind)[j]
                < #[trigger] positions_of(kinds, kind)[k],
        forall|i: int|
            0 <= i < kinds.len() && kinds[i] == kind ==> #[trigger] positions_of(kinds, kind).contains(
                i,
            ),
    decreases kinds.len(),
{
    if kinds.len() > 0 {
        let rest = kinds.drop_last();
        lemma_positions_exact(rest, kind);
        let before = positions_of(rest, kind);
        assert forall|i: int| 0 <= i < kinds.len() && kinds[i] == kind implies #[trigger] positions_of(
            kinds,
            kind,
        ).contains(i) by {
            if i < kinds.len() - 1 {
                assert(rest[i] == kind);
                assert(before.contains(i));
                let j = choose|j: int| 0 <= j < before.len() && before[j] == i;
                if kinds.last() == kind {
                    assert(before.push(kinds.len() - 1)[j] == i);
                }
            } else {
                assert(before.push(kinds.len() - 1)[before.len() as int] == i);
            }
        }
        if kinds.last() == kind {
            let all = before.push(kinds.len() - 1);
            assert forall|j: int| 0 <= j < all.len() implies 0 <= #[trigger] all[j] < kinds.len()
                && kinds[all[j]] == kind by {
                if j < before.len() {
                    assert(all[j] == before[j]);
                    assert(rest[before[j]] == kind);
                }
            }
            assert forall|j: int, k: int| 0 <= j < k < all.len() implies #[trigger] all[j]
                < #[trigger] all[k] by {
                if k < before.len() {
                    assert(all[j] == before[j] && all[k] == before[k]);
                } else {
                    assert(all[j] == before[j]);
                    assert(0 <= before[j] < rest.len());
                }
            }
        } else {
            assert forall|j: int| 0 <= j < before.len() implies 0 <= #[trigger] before[j]
                < kinds.len() && kinds[before[j]] == kind by {
                assert(rest[before[j]] == kind);
            }
        }
    }
}

/// Two different messages are never answered by the same kind of listener,
/// and so never looked up under the same event name.
pub proof fn lemma_messages_answered_apart(a: MessageKind, b: MessageKind)
    requires
        a != b,
    ensures
        answering_kind(a) != answering_kind(b),
        event_name_of(answering_kind(a)) != event_name_of(answering_kind(b)),
{
    super::listener::lemma_event_names_distinct(answering_kind(a), answering_kind(b));
}

} // verus!
