//! The palette tables: three fixed themes (light, dark, custom), each a set
//! of named application colors plus per-widget styling constants. Pure
//! configuration data; colors are 8-bit RGB components, lengths whole pixels.

use vstd::prelude::*;

verus! {

/// One color, by its 8-bit RGB components.
#[derive(Clone, Copy, Debug, PartialEq, Eq, Structural)]
pub struct Rgb8 {
    pub red: u8,
    pub green: u8,
    pub blue: u8,
}

/// The five named application colors of one theme.
#[derive(Clone, Copy, Debug, PartialEq, Eq, Structural)]
pub struct Palette {
    pub background: Rgb8,
    pub text: Rgb8,
    pub primary: Rgb8,
    pub success: Rgb8,
    pub danger: Rgb8,
}

/// A two-dimensional offset, in whole pixels.
#[derive(Clone, Copy, Debug, PartialEq, Eq, Structural)]
pub struct Vector {
    pub x: i32,
    pub y: i32,
}

/// Styling constants for a button.
#[derive(Clone, Copy, Debug, PartialEq, Eq, Structural)]
pub struct ButtonStyle {
    pub border_radius: u32,
    pub txt_color: Rgb8,
    pub bg_color: Rgb8,
    pub border_color: Rgb8,
    pub border_width: u32,
    pub shadow_offset: Vector,
}

/// Styling constants for a list's drop-down menu.
#[derive(Clone, Copy, Debug, PartialEq, Eq, Structural)]
pub struct MenuStyle {
    pub txt_color: Rgb8,
    pub bg_color: Rgb8,
    pub border_radius: u32,
    pub border_width: u32,
    pub border_color: Rgb8,
    pub sel_txt_color: Rgb8,
    pub sel_bg_color: Rgb8,
}

/// Styling constants for a pick list.
#[derive(Clone, Copy, Debug, PartialEq, Eq, Structural)]
pub struct ListStyle {
    pub txt_color: Rgb8,
    pub bg_color: Rgb8,
    pub handle_color: Rgb8,
    pub border_radius: u32,
    pub border_width: u32,
    pub border_color: Rgb8,
    pub menu: MenuStyle,
}

/// One theme: the application palette plus the widget styling constants.
#[derive(Clone, Copy, Debug, PartialEq, Eq, Structural)]
pub struct ThemeCustom {
    pub application: Palette,
    pub sidebar: ButtonStyle,
    pub secondary: ButtonStyle,
    pub list: ListStyle,
}

/// The three themes the viewer ships with.
#[derive(Clone, Copy, Debug, PartialEq, Eq, Structural)]
pub struct ThemeSet {
    pub light: ThemeCustom,
    pub dark: ThemeCustom,
    pub custom: ThemeCustom,
}

/// Which of the three themes is active.
#[derive(Clone, Copy, Debug, PartialEq, Eq, Structural)]
pub enum SelectedTheme {
    Light,
    Dark,
    Custom,
}

/// The light theme's data.
pub open spec fn spec_light_theme() -> ThemeCustom {
    ThemeCustom {
        application: Palette {
            background: Rgb8 { red: 0xE0, green: 0xF5, blue: 0xFF },
            text: Rgb8 { red: 0x00, green: 0x19, blue: 0x36 },
            primary: Rgb8 { red: 0x00, green: 0x77, blue: 0xFF },
            success: Rgb8 { red: 0x00, green: 0xCB, blue: 0x40 },
            danger: Rgb8 { red: 0xFF, green: 0x4C, blue: 0x00 },
        },
        sidebar: ButtonStyle {
            border_radius: 2,
            txt_color: Rgb8 { red: 0x00, green: 0x19, blue: 0x36 },
            bg_color: Rgb8 { red: 0xD2, green: 0xF0, blue: 0xFF },
            border_color: Rgb8 { red: 0, green: 0, blue: 0 },
            border_width: 0,
            shadow_offset: Vector { x: 0, y: 0 },
        },
        secondary: ButtonStyle {
            border_radius: 2,
            txt_color: Rgb8 { red: 0x00, green: 0x20, blue: 0x46 },
            bg_color: Rgb8 { red: 0xC6, green: 0xEC, blue: 0xFF },
            border_color: Rgb8 { red: 0, green: 0, blue: 0 },
            border_width: 0,
            shadow_offset: Vector { x: 0, y: 0 },
        },
        list: ListStyle {
            txt_color: Rgb8 { red: 0x00, green: 0x19, blue: 0x36 },
            bg_color: Rgb8 { red: 0xE0, green: 0xF5, blue: 0xFF },
            handle_color: Rgb8 { red: 0x00, green: 0x19, blue: 0x36 },
            border_radius: 5,
            border_width: 2,
            border_color: Rgb8 { red: 0x00, green: 0x19, blue: 0x36 },
            menu: MenuStyle {
                txt_color: Rgb8 { red: 0x00, green: 0x19, blue: 0x36 },
                bg_color: Rgb8 { red: 0xE0, green: 0xF5, blue: 0xFF },
                border_radius: 5,
                border_width: 2,
                border_color: Rgb8 { red: 0x00, green: 0x19, blue: 0x36 },
                sel_txt_color: Rgb8 { red: 0x00, green: 0x19, blue: 0x36 },
                sel_bg_color: Rgb8 { red: 0x00, green: 0xF1, blue: 0xD6 },
            },
        },
    }
}

/// The dark theme's data.
pub open spec fn spec_dark_theme() -> ThemeCustom {
    ThemeCustom {
        application: Palette {
            background: Rgb8 { red: 0x00, green: 0x19, blue: 0x36 },
            text: Rgb8 { red: 0xE0, green: 0xF5, blue: 0xFF },
            primary: Rgb8 { red: 0x00, green: 0xAB, blue: 0xE1 },
            success: Rgb8 { red: 0x00, green: 0xA9, blue: 0x35 },
            danger: Rgb8 { red: 0xC5, green: 0x3A, blue: 0x00 },
        },
        sidebar: ButtonStyle {
            border_radius: 2,
            txt_color: Rgb8 { red: 0xE0, green: 0xF5, blue: 0xFF },
            bg_color: Rgb8 { red: 0x00, green: 0x20, blue: 0x46 },
            border_color: Rgb8 { red: 0, green: 0, blue: 0 },
            border_width: 0,
            shadow_offset: Vector { x: 0, y: 0 },
        },
        secondary: ButtonStyle {
            border_radius: 2,
            txt_color: Rgb8 { red: 0xE0, green: 0xF5, blue: 0xFF },
            bg_color: Rgb8 { red: 0x00, green: 0x29, blue: 0x58 },
            border_color: Rgb8 { red: 0, green: 0, blue: 0 },
            border_width: 0,
            shadow_offset: Vector { x: 0, y: 0 },
        },
        list: ListStyle {
            txt_color: Rgb8 { red: 0xE0, green: 0xF5, blue: 0xFF },
            bg_color: Rgb8 { red: 0x00, green: 0x29, blue: 0x58 },
            handle_color: Rgb8 { red: 0xE0, green: 0xF5, blue: 0xFF },
            border_radius: 5,
            border_width: 2,
            border_color: Rgb8 { red: 0xE0, green: 0xF5, blue: 0xFF },
            menu: MenuStyle {
                txt_color: Rgb8 { red: 0xE0, green: 0xF5, blue: 0xFF },
                bg_color: Rgb8 { red: 0xE0, green: 0xF5, blue: 0xFF },
                border_radius: 5,
                border_width: 2,
                border_color: Rgb8 { red: 0xE0, green: 0xF5, blue: 0xFF },
                sel_txt_color: Rgb8 { red: 0xE0, green: 0xF5, blue: 0xFF },
                sel_bg_color: Rgb8 { red: 0x00, green: 0xCD, blue: 0xB6 },
            },
        },
    }
}

/// The custom theme's data: a teal-accented dark scheme.
pub open spec fn spec_custom_theme() -> ThemeCustom {
    ThemeCustom {
        application: Palette {
            background: Rgb8 { red: 0x10, green: 0x20, blue: 0x27 },
            text: Rgb8 { red: 0xE0, green: 0xF2, blue: 0xF1 },
            primary: Rgb8 { red: 0x00, green: 0xF1, blue: 0xD6 },
            success: Rgb8 { red: 0x00, green: 0xCB, blue: 0x40 },
            danger: Rgb8 { red: 0xFF, green: 0x4C, blue: 0x00 },
        },
        sidebar: ButtonStyle {
            border_radius: 2,
            txt_color: Rgb8 { red: 0xE0, green: 0xF2, blue: 0xF1 },
            bg_color: Rgb8 { red: 0x16, green: 0x32, blue: 0x3B },
            border_color: Rgb8 { red: 0, green: 0, blue: 0 },
            border_width: 0,
            shadow_offset: Vector { x: 0, y: 0 },
        },
        secondary: ButtonStyle {
            border_radius: 2,
            txt_color: Rgb8 { red: 0xE0, green: 0xF2, blue: 0xF1 },
            bg_color: Rgb8 { red: 0x1C, green: 0x3F, blue: 0x4A },
            border_color: Rgb8 { red: 0, green: 0, blue: 0 },
            border_width: 0,
            shadow_offset: Vector { x: 0, y: 0 },
        },
        list: ListStyle {
            txt_color: Rgb8 { red: 0xE0, green: 0xF2, blue: 0xF1 },
            bg_color: Rgb8 { red: 0x10, green: 0x20, blue: 0x27 },
            handle_color: Rgb8 { red: 0x00, green: 0xF1, blue: 0xD6 },
            border_radius: 5,
            border_width: 2,
            border_color: Rgb8 { red: 0x00, green: 0xF1, blue: 0xD6 },
            menu: MenuStyle {
                txt_color: Rgb8 { red: 0xE0, green: 0xF2, blue: 0xF1 },
                bg_color: Rgb8 { red: 0x10, green: 0x20, blue: 0x27 },
                border_radius: 5,
                border_width: 2,
                border_color: Rgb8 { red: 0x00, green: 0xF1, blue: 0xD6 },
                sel_txt_color: Rgb8 { red: 0x10, green: 0x20, blue: 0x27 },
                sel_bg_color: Rgb8 { red: 0x00, green: 0xF1, blue: 0xD6 },
            },
        },
    }
}

/// The full table of the three themes.
pub open spec fn spec_default_theme_set() -> ThemeSet {
    ThemeSet {
        light: spec_light_theme(),
        dark: spec_dark_theme(),
        custom: spec_custom_theme(),
    }
}

/// Builds the custom theme.
pub fn make_custom_theme() -> (theme: ThemeCustom)
    ensures
        theme == spec_custom_theme(),
{
    ThemeCustom {
        application: Palette {
            background: Rgb8 { red: 0x10, green: 0x20, blue: 0x27 },
            text: Rgb8 { red: 0xE0, green: 0xF2, blue: 0xF1 },
            primary: Rgb8 { red: 0x00, green: 0xF1, blue: 0xD6 },
            success: Rgb8 { red: 0x00, green: 0xCB, blue: 0x40 },
            danger: Rgb8 { red: 0xFF, green: 0x4C, blue: 0x00 },
        },
        sidebar: ButtonStyle {
            border_radius: 2,
            txt_color: Rgb8 { red: 0xE0, green: 0xF2, blue: 0xF1 },
            bg_color: Rgb8 { red: 0x16, green: 0x32, blue: 0x3B },
            border_color: Rgb8 { red: 0, green: 0, blue: 0 },
            border_width: 0,
            shadow_offset: Vector { x: 0, y: 0 },
        },
        secondary: ButtonStyle {
            border_radius: 2,
            txt_color: Rgb8 { red: 0xE0, green: 0xF2, blue: 0xF1 },
            bg_color: Rgb8 { red: 0x1C, green: 0x3F, blue: 0x4A },
            border_color: Rgb8 { red: 0, green: 0, blue: 0 },
            border_width: 0,
            shadow_offset: Vector { x: 0, y: 0 },
        },
        list: ListStyle {
            txt_color: Rgb8 { red: 0xE0, green: 0xF2, blue: 0xF1 },
            bg_color: Rgb8 { red: 0x10, green: 0x20, blue: 0x27 },
            handle_color: Rgb8 { red: 0x00, green: 0xF1, blue: 0xD6 },
            border_radius: 5,
            border_width: 2,
            border_color: Rgb8 { red: 0x00, green: 0xF1, blue: 0xD6 },
            menu: MenuStyle {
                txt_color: Rgb8 { red: 0xE0, green: 0xF2, blue: 0xF1 },
                bg_color: Rgb8 { red: 0x10, green: 0x20, blue: 0x27 },
                border_radius: 5,
                border_width: 2,
                border_color: Rgb8 { red: 0x00, green: 0xF1, blue: 0xD6 },
                sel_txt_color: Rgb8 { red: 0x10, green: 0x20, blue: 0x27 },
                sel_bg_color: Rgb8 { red: 0x00, green: 0xF1, blue: 0xD6 },
            },
        },
    }
}

/// The theme the viewer selects at startup.
pub fn get_set_theme() -> (selected: SelectedTheme)
    ensures
        selected == SelectedTheme::Light,
{
    SelectedTheme::Light
}

/// Builds the light theme.
fn light_theme() -> (theme: ThemeCustom)
    ensures
        theme == spec_light_theme(),
{
    ThemeCustom {
        application: Palette {
            background: Rgb8 { red: 0xE0, green: 0xF5, blue: 0xFF },
            text: Rgb8 { red: 0x00, green: 0x19, blue: 0x36 },
            primary: Rgb8 { red: 0x00, green: 0x77, blue: 0xFF },
            success: Rgb8 { red: 0x00, green: 0xCB, blue: 0x40 },
            danger: Rgb8 { red: 0xFF, green: 0x4C, blue: 0x00 },
        },
        sidebar: ButtonStyle {
            border_radius: 2,
            txt_color: Rgb8 { red: 0x00, green: 0x19, blue: 0x36 },
            bg_color: Rgb8 { red: 0xD2, green: 0xF0, blue: 0xFF },
            border_color: Rgb8 { red: 0, green: 0, blue: 0 },
            border_width: 0,
            shadow_offset: Vector { x: 0, y: 0 },
        },
        secondary: ButtonStyle {
            border_radius: 2,
            txt_color: Rgb8 { red: 0x00, green: 0x20, blue: 0x46 },
            bg_color: Rgb8 { red: 0xC6, green: 0xEC, blue: 0xFF },
            border_color: Rgb8 { red: 0, green: 0, blue: 0 },
            border_width: 0,
            shadow_offset: Vector { x: 0, y: 0 },
        },
        list: ListStyle {
            txt_color: Rgb8 { red: 0x00, green: 0x19, blue: 0x36 },
            bg_color: Rgb8 { red: 0xE0, green: 0xF5, blue: 0xFF },
            handle_color: Rgb8 { red: 0x00, green: 0x19, blue: 0x36 },
            border_radius: 5,
            border_width: 2,
            border_color: Rgb8 { red: 0x00, green: 0x19, blue: 0x36 },
            menu: MenuStyle {
                txt_color: Rgb8 { red: 0x00, green: 0x19, blue: 0x36 },
                bg_color: Rgb8 { red: 0xE0, green: 0xF5, blue: 0xFF },
                border_radius: 5,
                border_width: 2,
                border_color: Rgb8 { red: 0x00, green: 0x19, blue: 0x36 },
                sel_txt_color: Rgb8 { red: 0x00, green: 0x19, blue: 0x36 },
                sel_bg_color: Rgb8 { red: 0x00, green: 0xF1, blue: 0xD6 },
            },
        },
    }
}

/// Builds the dark theme.
fn dark_theme() -> (theme: ThemeCustom)
    ensures
        theme == spec_dark_theme(),
{
    ThemeCustom {
        application: Palette {
            background: Rgb8 { red: 0x00, green: 0x19, blue: 0x36 },
            text: Rgb8 { red: 0xE0, green: 0xF5, blue: 0xFF },
            primary: Rgb8 { red: 0x00, green: 0xAB, blue: 0xE1 },
            success: Rgb8 { red: 0x00, green: 0xA9, blue: 0x35 },
            danger: Rgb8 { red: 0xC5, green: 0x3A, blue: 0x00 },
        },
        sidebar: ButtonStyle {
            border_radius: 2,
            txt_color: Rgb8 { red: 0xE0, green: 0xF5, blue: 0xFF },
            bg_color: Rgb8 { red: 0x00, green: 0x20, blue: 0x46 },
            border_color: Rgb8 { red: 0, green: 0, blue: 0 },
            border_width: 0,
            shadow_offset: Vector { x: 0, y: 0 },
        },
        secondary: ButtonStyle {
            border_radius: 2,
            txt_color: Rgb8 { red: 0xE0, green: 0xF5, blue: 0xFF },
            bg_color: Rgb8 { red: 0x00, green: 0x29, blue: 0x58 },
            border_color: Rgb8 { red: 0, green: 0, blue: 0 },
            border_width: 0,
            shadow_offset: Vector { x: 0, y: 0 },
        },
        list: ListStyle {
            txt_color: Rgb8 { red: 0xE0, green: 0xF5, blue: 0xFF },
            bg_color: Rgb8 { red: 0x00, green: 0x29, blue: 0x58 },
            handle_color: Rgb8 { red: 0xE0, green: 0xF5, blue: 0xFF },
            border_radius: 5,
            border_width: 2,
            border_color: Rgb8 { red: 0xE0, green: 0xF5, blue: 0xFF },
            menu: MenuStyle {
                txt_color: Rgb8 { red: 0xE0, green: 0xF5, blue: 0xFF },
                bg_color: Rgb8 { red: 0xE0, green: 0xF5, blue: 0xFF },
                border_radius: 5,
                border_width: 2,
                border_color: Rgb8 { red: 0xE0, green: 0xF5, blue: 0xFF },
                sel_txt_color: Rgb8 { red: 0xE0, green: 0xF5, blue: 0xFF },
                sel_bg_color: Rgb8 { red: 0x00, green: 0xCD, blue: 0xB6 },
            },
        },
    }
}

/// Builds the full table of the three themes.
pub fn default_theme_set() -> (themes: ThemeSet)
    ensures
        themes == spec_default_theme_set(),
{
    ThemeSet { light: light_theme(), dark: dark_theme(), custom: make_custom_theme() }
}

} // verus!
