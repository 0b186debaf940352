//! The viewer's state and its update rule: which messages open the file
//! dialog, and how a dialog outcome changes the selection.

use vstd::prelude::*;
use vstd::string::StringExecFns;
use crate::events::{action_for, Action, Key, KeyboardEvent, Message, Modifiers, WindowEvent};
use crate::style::{default_theme_set, get_set_theme, spec_default_theme_set, Palette, SelectedTheme, ThemeSet};

verus! {

/// The whole state of the viewer: the selected image path, if any, the
/// theme table, and which theme is active.
#[derive(Clone, Debug, PartialEq, Eq)]
pub struct Lionfish {
    pub img_path: Option<String>,
    pub theme_set: ThemeSet,
    pub selected_theme: SelectedTheme,
}

/// The state after a dialog outcome is applied: the outcome replaces the
/// selection outright, whatever was selected before.
pub open spec fn spec_apply_dialog(state: Lionfish, choice: Option<String>) -> Lionfish {
    Lionfish { img_path: choice, ..state }
}

impl Lionfish {
    /// Builds the startup state from the process argument list, program
    /// name first: the first real argument, if present, is the initial
    /// image path, and the light theme is active.
    pub fn new(args: &Vec<String>) -> (state: Lionfish)
        ensures
            args@.len() >= 2 ==> state.img_path == Some(args@[1]),
            args@.len() < 2 ==> state.img_path is None,
            state.theme_set == spec_default_theme_set(),
            state.selected_theme == SelectedTheme::Light,
    {
        let img_path = if args.len() >= 2 {
            Some(args[1].clone())
        } else {
            None
        };
        Lionfish { img_path, theme_set: default_theme_set(), selected_theme: get_set_theme() }
    }

    /// The fixed window title.
    pub fn title(&self) -> (title: String)
        ensures
            title@ == "Lionfish Image Viewer"@,
    {
        String::from_str("Lionfish Image Viewer")
    }

    /// Handles one message and says what the event loop must do next. The
    /// Open control and an Enter key press ask for the file dialog; every
    /// other keyboard event and every window event asks for nothing. The
    /// state itself never changes here: only a dialog outcome, applied
    /// through [`Lionfish::apply_dialog_result`], changes it.
    pub fn update(&mut self, message: Message) -> (action: Action)
        ensures
            *final(self) == *old(self),
            action == action_for(message),
    {
        match message {
            Message::OpenFile => Action::OpenDialog,
            Message::KeyboardUpdate(event) => match event {
                KeyboardEvent::KeyPressed { key_code, modifiers: _ } => {
                    if key_code == Key::Enter {
                        Action::OpenDialog
                    } else {
                        Action::Idle
                    }
                },
                KeyboardEvent::KeyReleased { .. } => Action::Idle,
                KeyboardEvent::CharacterReceived(_) => Action::Idle,
                KeyboardEvent::ModifiersChanged(_) => Action::Idle,
            },
            Message::WindowUpdate(event) => match event {
                WindowEvent::Moved { .. } => Action::Idle,
                WindowEvent::Resized { .. } => Action::Idle,
                WindowEvent::RedrawRequested => Action::Idle,
                WindowEvent::CloseRequested => Action::Idle,
                WindowEvent::Focused => Action::Idle,
                WindowEvent::Unfocused => Action::Idle,
                WindowEvent::FileHovered(_) => Action::Idle,
                WindowEvent::FileDropped(_) => Action::Idle,
                WindowEvent::FilesHoveredLeft => Action::Idle,
            },
        }
    }

    /// Records the outcome of the file dialog: a chosen path replaces the
    /// selection, a cancelled dialog clears it, whatever was selected
    /// before.
    pub fn apply_dialog_result(&mut self, choice: Option<String>)
        ensures
            *final(self) == spec_apply_dialog(*old(self), choice),
    {
        self.img_path = choice;
    }

    /// The palette the active theme resolves to.
    pub open spec fn spec_theme(self) -> Palette {
        match self.selected_theme {
            SelectedTheme::Light => self.theme_set.light.application,
            SelectedTheme::Dark => self.theme_set.dark.application,
            SelectedTheme::Custom => self.theme_set.custom.application,
        }
    }

    /// Looks the active theme's palette up in the theme table.
    pub fn theme(&self) -> (palette: Palette)
        ensures
            palette == self.spec_theme(),
    {
        match self.selected_theme {
            SelectedTheme::Light => self.theme_set.light.application,
            SelectedTheme::Dark => self.theme_set.dark.application,
            SelectedTheme::Custom => self.theme_set.custom.application,
        }
    }
}

/// Law: a keyboard event whose key is not Enter never asks for the dialog,
/// so handling it leaves the state unchanged and the event loop idle.
pub proof fn lemma_non_enter_key_ignored(event: KeyboardEvent)
    requires
        !(event matches KeyboardEvent::KeyPressed { key_code: Key::Enter, .. }),
    ensures
        action_for(Message::KeyboardUpdate(event)) == Action::Idle,
{
}

/// Law: an Enter key press asks for exactly what the Open control asks
/// for, so the dialog outcome is afterwards applied by the same rule on
/// both paths.
pub proof fn lemma_enter_matches_open(modifiers: Modifiers)
    ensures
        action_for(Message::KeyboardUpdate(
            (KeyboardEvent::KeyPressed { key_code: Key::Enter, modifiers }),
        )) == action_for(Message::OpenFile),
        action_for(Message::OpenFile) == Action::OpenDialog,
{
}

/// Law: no window event asks for the dialog; handling one leaves the state
/// unchanged and the event loop idle.
pub proof fn lemma_window_event_ignored(event: WindowEvent)
    ensures
        action_for(Message::WindowUpdate(event)) == Action::Idle,
{
}

} // verus!
