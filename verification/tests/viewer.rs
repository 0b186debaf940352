use lionfish::events::{
    subscription_filter, Action, Key, KeyboardEvent, Message, Modifiers, RuntimeEvent, WindowEvent,
};
use lionfish::render::DisplayContent;
use lionfish::state::Lionfish;
use lionfish::style::{default_theme_set, get_set_theme, make_custom_theme, Rgb8, SelectedTheme};

fn plain_modifiers() -> Modifiers {
    Modifiers { shift: false, control: false, alt: false, logo: false }
}

fn state_with_selection(path: &str) -> Lionfish {
    let args: Vec<String> = vec!["lionfish".to_string(), path.to_string()];
    Lionfish::new(&args)
}

#[test]
fn starts_without_selection() {
    let args: Vec<String> = vec!["lionfish".to_string()];
    let state = Lionfish::new(&args);
    assert_eq!(state.img_path, None);
    let model = state.view();
    assert_eq!(model.open_label, "Open".to_string());
    assert_eq!(model.open_message, Message::OpenFile);
    assert_eq!(model.content, DisplayContent::Placeholder("No Image is Selected!".to_string()));
}

#[test]
fn starts_without_any_argument() {
    let args: Vec<String> = Vec::new();
    let state = Lionfish::new(&args);
    assert_eq!(state.img_path, None);
    let model = state.view();
    assert_eq!(model.content, DisplayContent::Placeholder("No Image is Selected!".to_string()));
}

#[test]
fn starts_with_argument_selected() {
    let state = state_with_selection("/tmp/pic.png");
    assert_eq!(state.img_path, Some("/tmp/pic.png".to_string()));
    let model = state.view();
    assert_eq!(model.content, DisplayContent::Image("/tmp/pic.png".to_string()));
}

#[test]
fn chosen_path_replaces_selection() {
    let mut state = state_with_selection("/old/previous.png");
    let action = state.update(Message::OpenFile);
    assert_eq!(action, Action::OpenDialog);
    state.apply_dialog_result(Some("/a/b.jpg".to_string()));
    assert_eq!(state.img_path, Some("/a/b.jpg".to_string()));
}

#[test]
fn cancelled_dialog_clears_selection() {
    let mut state = state_with_selection("/old/previous.png");
    let action = state.update(Message::OpenFile);
    assert_eq!(action, Action::OpenDialog);
    state.apply_dialog_result(None);
    assert_eq!(state.img_path, None);
}

#[test]
fn other_key_leaves_state_unchanged() {
    let mut state = state_with_selection("/tmp/pic.png");
    let before = state.clone();
    let events = vec![
        KeyboardEvent::KeyPressed { key_code: Key::Other, modifiers: plain_modifiers() },
        KeyboardEvent::KeyReleased { key_code: Key::Enter, modifiers: plain_modifiers() },
        KeyboardEvent::CharacterReceived('a'),
        KeyboardEvent::ModifiersChanged(plain_modifiers()),
    ];
    for event in events {
        let action = state.update(Message::KeyboardUpdate(event));
        assert_eq!(action, Action::Idle);
        assert_eq!(state, before);
    }
}

#[test]
fn enter_key_opens_dialog_like_open_control() {
    let enter = KeyboardEvent::KeyPressed { key_code: Key::Enter, modifiers: plain_modifiers() };

    let mut by_key = state_with_selection("/old/previous.png");
    let mut by_control = state_with_selection("/old/previous.png");
    assert_eq!(by_key.update(Message::KeyboardUpdate(enter)), Action::OpenDialog);
    assert_eq!(by_control.update(Message::OpenFile), Action::OpenDialog);

    by_key.apply_dialog_result(Some("/a/b.jpg".to_string()));
    by_control.apply_dialog_result(Some("/a/b.jpg".to_string()));
    assert_eq!(by_key, by_control);

    by_key.apply_dialog_result(None);
    by_control.apply_dialog_result(None);
    assert_eq!(by_key, by_control);
    assert_eq!(by_key.img_path, None);
}

#[test]
fn window_events_leave_state_unchanged() {
    let mut state = state_with_selection("/tmp/pic.png");
    let before = state.clone();
    let events = vec![
        WindowEvent::Moved { x: 10, y: -5 },
        WindowEvent::Resized { width: 800, height: 600 },
        WindowEvent::RedrawRequested,
        WindowEvent::CloseRequested,
        WindowEvent::Focused,
        WindowEvent::Unfocused,
        WindowEvent::FileHovered("/hover.png".to_string()),
        WindowEvent::FileDropped("/drop.png".to_string()),
        WindowEvent::FilesHoveredLeft,
    ];
    for event in events {
        let action = state.update(Message::WindowUpdate(event));
        assert_eq!(action, Action::Idle);
        assert_eq!(state, before);
    }
}

#[test]
fn title_is_fixed() {
    let state = state_with_selection("/tmp/pic.png");
    assert_eq!(state.title(), "Lionfish Image Viewer".to_string());
}

#[test]
fn theme_follows_selection() {
    let args: Vec<String> = vec!["lionfish".to_string()];
    let mut state = Lionfish::new(&args);
    let themes = default_theme_set();

    assert_eq!(state.selected_theme, SelectedTheme::Light);
    assert_eq!(state.theme(), themes.light.application);

    state.selected_theme = SelectedTheme::Dark;
    assert_eq!(state.theme(), themes.dark.application);

    state.selected_theme = SelectedTheme::Custom;
    assert_eq!(state.theme(), themes.custom.application);
}

#[test]
fn theme_table_holds_expected_colors() {
    let themes = default_theme_set();

    assert_eq!(themes.light.application.background, Rgb8 { red: 0xE0, green: 0xF5, blue: 0xFF });
    assert_eq!(themes.light.application.danger, Rgb8 { red: 0xFF, green: 0x4C, blue: 0x00 });
    assert_eq!(themes.light.sidebar.border_radius, 2);
    assert_eq!(themes.light.sidebar.bg_color, Rgb8 { red: 0xD2, green: 0xF0, blue: 0xFF });
    assert_eq!(themes.light.list.border_width, 2);
    assert_eq!(themes.light.list.menu.sel_bg_color, Rgb8 { red: 0x00, green: 0xF1, blue: 0xD6 });

    assert_eq!(themes.dark.application.background, Rgb8 { red: 0x00, green: 0x19, blue: 0x36 });
    assert_eq!(themes.dark.application.primary, Rgb8 { red: 0x00, green: 0xAB, blue: 0xE1 });
    assert_eq!(themes.dark.secondary.bg_color, Rgb8 { red: 0x00, green: 0x29, blue: 0x58 });
    assert_eq!(themes.dark.list.menu.sel_bg_color, Rgb8 { red: 0x00, green: 0xCD, blue: 0xB6 });

    assert_eq!(themes.custom, make_custom_theme());
    assert_eq!(themes.custom.application.primary, Rgb8 { red: 0x00, green: 0xF1, blue: 0xD6 });
}

#[test]
fn startup_theme_selection_is_light() {
    assert_eq!(get_set_theme(), SelectedTheme::Light);
}

#[test]
fn subscription_keeps_keyboard_and_window_events() {
    let key_event = KeyboardEvent::CharacterReceived('x');
    assert_eq!(
        subscription_filter(RuntimeEvent::Keyboard(key_event)),
        Some(Message::KeyboardUpdate(key_event))
    );
    assert_eq!(
        subscription_filter(RuntimeEvent::Window(WindowEvent::Focused)),
        Some(Message::WindowUpdate(WindowEvent::Focused))
    );
    assert_eq!(subscription_filter(RuntimeEvent::Mouse), None);
    assert_eq!(subscription_filter(RuntimeEvent::Touch), None);
    assert_eq!(subscription_filter(RuntimeEvent::PlatformSpecific), None);
}
