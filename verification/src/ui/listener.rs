use vstd::prelude::*;

verus! {

/// The name of an event that listeners are registered under.
#[derive(Debug, Clone, Copy, Hash, PartialEq, Eq, PartialOrd, Ord)]
pub struct EventName(&'static str);

/// The kinds of listener a primitive can hold, one for each event.
#[derive(Debug, Clone, Copy, PartialEq, Eq, Structural)]
pub enum ListenerKind {
    WindowResized,
    Draw,
    OnMouseDown,
    OnMouseScroll,
    OnKeyDown,
    OnKeyUp,
    OnClick,
    OnInputChar,
    OnBlur,
}

/// The name of the event that a listener of kind `kind` waits for.
pub open spec fn event_name_of(kind: ListenerKind) -> Seq<char> {
    match kind {
        ListenerKind::WindowResized => "WindowResized"@,
        ListenerKind::Draw => "Draw"@,
        ListenerKind::OnMouseDown => "OnMouseDown"@,
        ListenerKind::OnMouseScroll => "OnMouseScroll"@,
        ListenerKind::OnKeyDown => "OnKeyDown"@,
        ListenerKind::OnKeyUp => "OnKeyUp"@,
        ListenerKind::OnClick => "OnClick"@,
        ListenerKind::OnInputChar => "OnInputChar"@,
        ListenerKind::OnBlur => "OnBlur"@,
    }
}

impl EventName {
    /// The characters of the name.
    pub closed spec fn chars(self) -> Seq<char> {
        self.0@
    }

    pub fn as_str(&self) -> (r: &'static str)
        ensures
            r@ == self.chars(),
    {
        self.0
    }

    pub fn draw() -> (r: EventName)
        ensures
            r.chars() == "Draw"@,
    {
        EventName("Draw")
    }

    pub fn on_blur() -> (r: EventName)
        ensures
            r.chars() == "OnBlur"@,
    {
        EventName("OnBlur")
    }

    pub fn on_click() -> (r: EventName)
        ensures
            r.chars() == "OnClick"@,
    {
        EventName("OnClick")
    }

    pub fn on_input_char() -> (r: EventName)
        ensures
            r.chars() == "OnInputChar"@,
    {
        EventName("OnInputChar")
    }

    pub fn on_key_down() -> (r: EventName)
        ensures
            r.chars() == "OnKeyDown"@,
    {
        EventName("OnKeyDown")
    }

    pub fn on_key_up() -> (r: EventName)
        ensures
            r.chars() == "OnKeyUp"@,
    {
        EventName("OnKeyUp")
    }

    pub fn on_mouse_down() -> (r: EventName)
        ensures
            r.chars() == "OnMouseDown"@,
    {
        EventName("OnMouseDown")
    }

    pub fn on_mouse_scroll() -> (r: EventName)
        ensures
            r.chars() == "OnMouseScroll"@,
    {
        EventName("OnMouseScroll")
    }

    pub fn window_resized() -> (r: EventName)
        ensures
            r.chars() == "WindowResized"@,
    {
        EventName("WindowResized")
    }
}

impl ListenerKind {
    /// The name of the event a listener of this kind is registered under.
    pub fn event_name(&self) -> (r: EventName)
        ensures
            r.chars() == event_name_of(*self),
    {
        match self {
            ListenerKind::WindowResized => EventName::window_resized(),
            ListenerKind::Draw => EventName::draw(),
            ListenerKind::OnMouseDown => EventName::on_mouse_down(),
            ListenerKind::OnMouseScroll => EventName::on_mouse_scroll(),
            ListenerKind::OnKeyDown => EventName::on_key_down(),
            ListenerKind::OnKeyUp => EventName::on_key_up(),
            ListenerKind::OnClick => EventName::on_click(),
            ListenerKind::OnInputChar => EventName::on_input_char(),
            ListenerKind::OnBlur => EventName::on_blur(),
        }
    }
}

/// Each kind of listener waits for an event of its own: no two kinds share
/// an event name.
pub proof fn lemma_event_names_distinct(a: ListenerKind, b: ListenerKind)
    requires
        a != b,
    ensures
        event_name_of(a) != event_name_of(b),
{
    reveal_strlit("Draw");
    reveal_strlit("OnBlur");
    reveal_strlit("OnClick");
    reveal_strlit("OnInputChar");
    reveal_strlit("OnKeyDown");
    reveal_strlit("OnKeyUp");
    reveal_strlit("OnMouseDown");
    reveal_strlit("OnMouseScroll");
    reveal_strlit("WindowResized");
    if event_name_of(a) == event_name_of(b) {
        assert(event_name_of(a).len() == event_name_of(b).len());
        assert(event_name_of(a)[2] == event_name_of(b)[2]);
        assert(event_name_of(a)[4] == event_name_of(b)[4]);
    }
}

} // verus!
