use vstd::prelude::*;

verus! {

/// What an application's frame procedure asks of the event loop.
#[derive(Debug, Clone, Copy, PartialEq, Eq, Structural)]
pub enum AppState {
    Exit,
    Continue,
}

/// A window event, as far as the event loop decides on it.
#[derive(Debug, Clone, Copy, PartialEq, Eq, Structural)]
pub enum WindowInput {
    /// The loop is being torn down.
    LoopDestroyed,
    /// The window took a new inner size.
    Resized { width: u32, height: u32 },
    /// The user asked to close the window.
    CloseRequested,
    /// A character was typed.
    ReceivedCharacter(char),
    /// A key went down (`pressed`) or up; `escape` tells whether it is the
    /// escape key.
    Key { pressed: bool, escape: bool },
    /// The cursor moved; the window driver keeps its position.
    CursorMoved,
    /// A mouse button went down.
    MousePressed,
    /// All pending events have been handled.
    EventsCleared,
    /// The window asks to be drawn again.
    RedrawRequested,
    /// Any other event, which the loop leaves alone.
    Other,
}

/// What the event loop does next.
#[derive(Debug, Clone, Copy, PartialEq, Eq, Structural)]
pub enum LoopStep {
    /// Nothing.
    Wait,
    /// Leave the loop.
    Exit,
    /// Resize the drawing context and tell the root component its new size.
    Resize { width: u32, height: u32 },
    /// Hand a typed character to the root component.
    InputChar(char),
    /// Tell the root component a key went down.
    KeyPressed,
    /// Tell the root component a key went up.
    KeyReleased,
    /// Record the new cursor position.
    MoveCursor,
    /// Tell the root component a mouse button went down at the cursor.
    PressMouse,
    /// Ask the window for a redraw.
    RequestRedraw,
    /// Run the frame procedure, then update and draw the root component.
    Redraw,
}

/// The step the event loop takes on `input`; with `exit_by_escape` set, the
/// escape key, down or up, ends the loop.
pub open spec fn step_for(exit_by_escape: bool, input: WindowInput) -> LoopStep {
    match input {
        WindowInput::LoopDestroyed => LoopStep::Wait,
        WindowInput::Resized { width, height } => LoopStep::Resize { width, height },
        WindowInput::CloseRequested => LoopStep::Exit,
        WindowInput::ReceivedCharacter(ch) => LoopStep::InputChar(ch),
        WindowInput::Key { pressed, escape } => {
            if escape && exit_by_escape {
                LoopStep::Exit
            } else if pressed {
                LoopStep::KeyPressed
            } else {
                LoopStep::KeyReleased
            }
        },
        WindowInput::CursorMoved => LoopStep::MoveCursor,
        WindowInput::MousePressed => LoopStep::PressMouse,
        WindowInput::EventsCleared => LoopStep::RequestRedraw,
        WindowInput::RedrawRequested => LoopStep::Redraw,
        WindowInput::Other => LoopStep::Wait,
    }
}

/// Decides what the event loop does with one window event.
pub fn next_step(exit_by_escape: bool, input: WindowInput) -> (r: LoopStep)
    ensures
        r == step_for(exit_by_escape, input),
{
    match input {
        WindowInput::LoopDestroyed => LoopStep::Wait,
        WindowInput::Resized { width, height } => LoopStep::Resize { width, height },
        WindowInput::CloseRequested => LoopStep::Exit,
        WindowInput::ReceivedCharacter(ch) => LoopStep::InputChar(ch),
        WindowInput::Key { escape: true, .. } if exit_by_escape => LoopStep::Exit,
        WindowInput::Key { pressed, .. } => {
            if pressed {
                LoopStep::KeyPressed
            } else {
                LoopStep::KeyReleased
            }
        },
        WindowInput::CursorMoved => LoopStep::MoveCursor,
        WindowInput::MousePressed => LoopStep::PressMouse,
        WindowInput::EventsCleared => LoopStep::RequestRedraw,
        WindowInput::RedrawRequested => LoopStep::Redraw,
        WindowInput::Other => LoopStep::Wait,
    }
}

/// The loop ends only when the window is closed, or on the escape key where
/// that is allowed; and the escape key is then never handed to the root
/// component.
pub proof fn lemma_exit_only_on_request(exit_by_escape: bool, input: WindowInput)
    ensures
        step_for(exit_by_escape, input) == LoopStep::Exit <==> (input == WindowInput::CloseRequested
            || (input matches WindowInput::Key { escape, .. } && escape && exit_by_escape)),
{
}

/// Every key that goes down or up is handed on as such, unless it ends the
/// loop.
pub proof fn lemma_keys_handed_on(exit_by_escape: bool, pressed: bool, escape: bool)
    requires
        !(escape && exit_by_escape),
    ensures
        step_for(exit_by_escape, WindowInput::Key { pressed, escape }) == (if pressed {
            LoopStep::KeyPressed
        } else {
            LoopStep::KeyReleased
        }),
{
}

/// Only the escape key depends on whether the app exits by escape: every
/// other window event is handled the same either way. A typed character
/// always goes to the root component, a new size always resizes, and
/// closing the window always ends the loop.
pub proof fn lemma_only_escape_depends_on_exit_by_escape(input: WindowInput, exit_by_escape: bool, ch: char, width: u32, height: u32)
    ensures
        !(input is Key) ==> step_for(true, input) == step_for(false, input),
        input matches WindowInput::Key { escape, .. } && !escape ==> step_for(true, input) == step_for(false, input),
        step_for(exit_by_escape, WindowInput::ReceivedCharacter(ch)) == LoopStep::InputChar(ch),
        step_for(exit_by_escape, WindowInput::Resized { width, height }) == (LoopStep::Resize { width, height }),
        step_for(exit_by_escape, WindowInput::CloseRequested) == LoopStep::Exit,
        step_for(exit_by_escape, WindowInput::RedrawRequested) == LoopStep::Redraw,
{
}

} // verus!
