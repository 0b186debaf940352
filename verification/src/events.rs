//! The events the viewer reacts to, the messages they become, and the
//! decision which of them trigger the file-selection dialog.

use vstd::prelude::*;

verus! {

/// A key of a keyboard event, as far as the viewer distinguishes keys:
/// Enter triggers the file dialog, every other key is ignored.
#[derive(Clone, Copy, Debug, PartialEq, Eq, Structural)]
pub enum Key {
    Enter,
    Other,
}

/// Keyboard modifier flags attached to key events. The viewer reads none of
/// them; they are carried so that events keep their full shape.
#[derive(Clone, Copy, Debug, PartialEq, Eq, Structural)]
pub struct Modifiers {
    pub shift: bool,
    pub control: bool,
    pub alt: bool,
    pub logo: bool,
}

/// One keyboard event, mirroring the host toolkit's keyboard event stream.
#[derive(Clone, Copy, Debug, PartialEq, Eq, Structural)]
pub enum KeyboardEvent {
    KeyPressed { key_code: Key, modifiers: Modifiers },
    KeyReleased { key_code: Key, modifiers: Modifiers },
    CharacterReceived(char),
    ModifiersChanged(Modifiers),
}

/// One window event. The viewer handles none of them today; they are
/// modeled so that the update rule can state that explicitly.
#[derive(Clone, Debug, PartialEq, Eq)]
pub enum WindowEvent {
    Moved { x: i32, y: i32 },
    Resized { width: u32, height: u32 },
    RedrawRequested,
    CloseRequested,
    Focused,
    Unfocused,
    FileHovered(String),
    FileDropped(String),
    FilesHoveredLeft,
}

/// A message delivered to the viewer's update rule.
#[derive(Clone, Debug, PartialEq, Eq)]
pub enum Message {
    OpenFile,
    KeyboardUpdate(KeyboardEvent),
    WindowUpdate(WindowEvent),
}

/// What the event loop must do after a message is handled: open the native
/// file dialog and report its outcome, or nothing at all.
#[derive(Clone, Copy, Debug, PartialEq, Eq, Structural)]
pub enum Action {
    OpenDialog,
    Idle,
}

/// Whether a message triggers the file-selection dialog: the Open control
/// itself, or an Enter key press. Nothing else does.
pub open spec fn triggers_dialog(message: Message) -> bool {
    match message {
        Message::OpenFile => true,
        Message::KeyboardUpdate(event) => match event {
            KeyboardEvent::KeyPressed { key_code, .. } => key_code == Key::Enter,
            _ => false,
        },
        Message::WindowUpdate(_) => false,
    }
}

/// The action a message resolves to.
pub open spec fn action_for(message: Message) -> Action {
    if triggers_dialog(message) {
        Action::OpenDialog
    } else {
        Action::Idle
    }
}

/// An event from the host toolkit's global event stream, as the viewer's
/// subscription sees it.
#[derive(Clone, Debug, PartialEq, Eq)]
pub enum RuntimeEvent {
    Keyboard(KeyboardEvent),
    Window(WindowEvent),
    Mouse,
    Touch,
    PlatformSpecific,
}

/// Filters the global event stream into messages: keyboard and window
/// events are delivered to the update rule, everything else is dropped.
pub fn subscription_filter(event: RuntimeEvent) -> (message: Option<Message>)
    ensures
        match event {
            RuntimeEvent::Keyboard(keyboard_event) => message == Some(
                Message::KeyboardUpdate(keyboard_event),
            ),
            RuntimeEvent::Window(window_event) => message == Some(
                Message::WindowUpdate(window_event),
            ),
            _ => message is None,
        },
{
    match event {
        RuntimeEvent::Keyboard(keyboard_event) => Some(Message::KeyboardUpdate(keyboard_event)),
        RuntimeEvent::Window(window_event) => Some(Message::WindowUpdate(window_event)),
        RuntimeEvent::Mouse => None,
        RuntimeEvent::Touch => None,
        RuntimeEvent::PlatformSpecific => None,
    }
}

} // verus!
