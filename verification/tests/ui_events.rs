use exgui::ui::{answering, dispatch, next_step, SystemListener, AppState, ListenerKind, LoopStep, MessageKind, WindowInput};

#[test]
fn answering_picks_matching_listeners_in_order() {
    let kinds = vec![
        ListenerKind::OnKeyDown,
        ListenerKind::Draw,
        ListenerKind::OnKeyDown,
        ListenerKind::OnKeyUp,
    ];
    assert_eq!(answering(&kinds, MessageKind::KeyDown), vec![0, 2]);
    assert_eq!(answering(&kinds, MessageKind::KeyUp), vec![3]);
    assert_eq!(answering(&kinds, MessageKind::Draw), vec![1]);
    assert_eq!(answering(&kinds, MessageKind::Char), Vec::<usize>::new());
}

#[test]
fn answering_on_no_listeners() {
    assert!(answering(&Vec::new(), MessageKind::MouseDown).is_empty());
}

#[test]
fn click_blur_and_scroll_listeners_never_answer_system_messages() {
    let kinds = vec![ListenerKind::OnClick, ListenerKind::OnBlur, ListenerKind::OnMouseScroll];
    for message in [
        MessageKind::WindowResized,
        MessageKind::Draw,
        MessageKind::MouseDown,
        MessageKind::KeyDown,
        MessageKind::KeyUp,
        MessageKind::Char,
    ] {
        assert!(answering(&kinds, message).is_empty());
    }
}

#[test]
fn messages_look_up_their_listener_names() {
    assert_eq!(MessageKind::WindowResized.event_name().as_str(), "WindowResized");
    assert_eq!(MessageKind::Draw.event_name().as_str(), "Draw");
    assert_eq!(MessageKind::MouseDown.event_name().as_str(), "OnMouseDown");
    assert_eq!(MessageKind::KeyDown.event_name().as_str(), "OnKeyDown");
    assert_eq!(MessageKind::KeyUp.event_name().as_str(), "OnKeyUp");
    assert_eq!(MessageKind::Char.event_name().as_str(), "OnInputChar");
    assert_eq!(MessageKind::Char.listener_kind(), ListenerKind::OnInputChar);
}

#[test]
fn loop_exits_on_close_and_escape() {
    assert_eq!(next_step(false, WindowInput::CloseRequested), LoopStep::Exit);
    assert_eq!(next_step(true, WindowInput::Key { pressed: true, escape: true }), LoopStep::Exit);
    assert_eq!(next_step(true, WindowInput::Key { pressed: false, escape: true }), LoopStep::Exit);
}

#[test]
fn escape_is_an_ordinary_key_when_not_exiting_by_it() {
    assert_eq!(next_step(false, WindowInput::Key { pressed: true, escape: true }), LoopStep::KeyPressed);
    assert_eq!(next_step(false, WindowInput::Key { pressed: false, escape: true }), LoopStep::KeyReleased);
    assert_eq!(next_step(true, WindowInput::Key { pressed: true, escape: false }), LoopStep::KeyPressed);
}

#[test]
fn loop_steps_for_other_events() {
    assert_eq!(
        next_step(true, WindowInput::Resized { width: 800, height: 600 }),
        LoopStep::Resize { width: 800, height: 600 }
    );
    assert_eq!(next_step(true, WindowInput::ReceivedCharacter('q')), LoopStep::InputChar('q'));
    assert_eq!(next_step(true, WindowInput::CursorMoved), LoopStep::MoveCursor);
    assert_eq!(next_step(true, WindowInput::MousePressed), LoopStep::PressMouse);
    assert_eq!(next_step(true, WindowInput::EventsCleared), LoopStep::RequestRedraw);
    assert_eq!(next_step(true, WindowInput::RedrawRequested), LoopStep::Redraw);
    assert_eq!(next_step(true, WindowInput::LoopDestroyed), LoopStep::Wait);
    assert_eq!(next_step(true, WindowInput::Other), LoopStep::Wait);
    assert_ne!(AppState::Exit, AppState::Continue);
}

struct Tagged(u32);

impl SystemListener<u32, u32> for Tagged {
    fn answer(&self, event: u32) -> u32 {
        self.0 * 100 + event
    }
}

#[test]
fn dispatch_calls_answering_listeners_in_order() {
    let kinds = vec![ListenerKind::OnKeyDown, ListenerKind::Draw, ListenerKind::OnKeyDown];
    let listeners = vec![Tagged(1), Tagged(2), Tagged(3)];
    let mut outputs = vec![7];
    dispatch(&kinds, &listeners, MessageKind::KeyDown, 5, true, &mut outputs);
    assert_eq!(outputs, vec![7, 105, 305]);
    dispatch(&kinds, &listeners, MessageKind::Draw, 9, true, &mut outputs);
    assert_eq!(outputs, vec![7, 105, 305, 209]);
    dispatch(&kinds, &listeners, MessageKind::Char, 9, true, &mut outputs);
    assert_eq!(outputs, vec![7, 105, 305, 209]);
}

#[test]
fn dispatch_mouse_down_only_on_a_hit() {
    let kinds = vec![ListenerKind::OnMouseDown, ListenerKind::OnMouseDown];
    let listeners = vec![Tagged(4), Tagged(6)];
    let mut outputs = Vec::new();
    dispatch(&kinds, &listeners, MessageKind::MouseDown, 1, false, &mut outputs);
    assert!(outputs.is_empty());
    dispatch(&kinds, &listeners, MessageKind::MouseDown, 1, true, &mut outputs);
    assert_eq!(outputs, vec![401, 601]);
    // Only a mouse-down depends on the hit.
    let key_kinds = vec![ListenerKind::OnKeyUp];
    dispatch(&key_kinds, &vec![Tagged(8)], MessageKind::KeyUp, 2, false, &mut outputs);
    assert_eq!(outputs, vec![401, 601, 802]);
}
