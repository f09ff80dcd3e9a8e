//! The colours the screens are drawn in.

use vstd::prelude::*;
use crate::themes::gruvbox::{GruvboxDark, GruvboxLight};

verus! {

/// A colour of the terminal: plain white, or one given by its red, green and
/// blue parts.
#[derive(Clone, Copy, PartialEq, Eq, Debug, Structural)]
pub enum Color {
    White,
    Rgb(u8, u8, u8),
}

/// The colour with the given red, green and blue parts.
pub open spec fn rgb(parts: (u8, u8, u8)) -> Color {
    Color::Rgb(parts.0, parts.1, parts.2)
}

/// The colour that a name stands for in the dark theme; an unknown name stands
/// for the background.
pub open spec fn dark_color(color_name: Seq<char>) -> Color {
    if color_name == "orange"@ {
        rgb(GruvboxDark::ORANGE)
    } else if color_name == "yellow"@ {
        rgb(GruvboxDark::YELLOW)
    } else if color_name == "green"@ {
        rgb(GruvboxDark::GREEN)
    } else if color_name == "blue"@ {
        rgb(GruvboxDark::BLUE)
    } else if color_name == "cyan"@ {
        rgb(GruvboxDark::AQUA)
    } else if color_name == "red"@ {
        rgb(GruvboxDark::RED)
    } else if color_name == "gray"@ {
        rgb(GruvboxDark::GRAY_ALT)
    } else if color_name == "fg"@ {
        rgb(GruvboxDark::FG)
    } else {
        rgb(GruvboxDark::BG)
    }
}

/// The colour that a name stands for in the light theme; an unknown name
/// stands for the background.
pub open spec fn light_color(color_name: Seq<char>) -> Color {
    if color_name == "orange"@ {
        rgb(GruvboxLight::ORANGE)
    } else if color_name == "yellow"@ {
        rgb(GruvboxLight::YELLOW)
    } else if color_name == "green"@ {
        rgb(GruvboxLight::GREEN)
    } else if color_name == "blue"@ {
        rgb(GruvboxLight::BLUE)
    } else if color_name == "cyan"@ {
        rgb(GruvboxLight::AQUA)
    } else if color_name == "red"@ {
        rgb(GruvboxLight::RED)
    } else if color_name == "gray"@ {
        rgb(GruvboxLight::GRAY_ALT)
    } else if color_name == "fg"@ {
        rgb(GruvboxLight::FG)
    } else {
        rgb(GruvboxLight::BG)
    }
}

/// The colour that a name stands for in a theme: `dark` and `light` have
/// their palettes, and in any other theme every name is white.
pub open spec fn theme_color(color_name: Seq<char>, theme: Seq<char>) -> Color {
    if theme == "dark"@ {
        dark_color(color_name)
    } else if theme == "light"@ {
        light_color(color_name)
    } else {
        Color::White
    }
}

fn from_parts(parts: (u8, u8, u8)) -> (color: Color)
    ensures
        color == rgb(parts),
{
    Color::Rgb(parts.0, parts.1, parts.2)
}

fn dark(color_name: &str) -> (color: Color)
    ensures
        color == dark_color(color_name@),
{
    if color_name.eq("orange") {
        from_parts(GruvboxDark::ORANGE)
    } else if color_name.eq("yellow") {
        from_parts(GruvboxDark::YELLOW)
    } else if color_name.eq("green") {
        from_parts(GruvboxDark::GREEN)
    } else if color_name.eq("blue") {
        from_parts(GruvboxDark::BLUE)
    } else if color_name.eq("cyan") {
        from_parts(GruvboxDark::AQUA)
    } else if color_name.eq("red") {
        from_parts(GruvboxDark::RED)
    } else if color_name.eq("gray") {
        from_parts(GruvboxDark::GRAY_ALT)
    } else if color_name.eq("fg") {
        from_parts(GruvboxDark::FG)
    } else {
        from_parts(GruvboxDark::BG)
    }
}

fn light(color_name: &str) -> (color: Color)
    ensures
        color == light_color(color_name@),
{
    if color_name.eq("orange") {
        from_parts(GruvboxLight::ORANGE)
    } else if color_name.eq("yellow") {
        from_parts(GruvboxLight::YELLOW)
    } else if color_name.eq("green") {
        from_parts(GruvboxLight::GREEN)
    } else if color_name.eq("blue") {
        from_parts(GruvboxLight::BLUE)
    } else if color_name.eq("cyan") {
        from_parts(GruvboxLight::AQUA)
    } else if color_name.eq("red") {
        from_parts(GruvboxLight::RED)
    } else if color_name.eq("gray") {
        from_parts(GruvboxLight::GRAY_ALT)
    } else if color_name.eq("fg") {
        from_parts(GruvboxLight::FG)
    } else {
        from_parts(GruvboxLight::BG)
    }
}

/// Looks a colour up by its name in a theme.
pub fn get_theme_color(color_name: &str, theme: &str) -> (color: Color)
    ensures
        color == theme_color(color_name@, theme@),
{
    if theme.eq("dark") {
        dark(color_name)
    } else if theme.eq("light") {
        light(color_name)
    } else {
        Color::White
    }
}


/// The label of a field of the two-variable form: `a1`, `b1`, `c1` for the
/// first equation, then `a2`, `b2`, `c2` for the second.
pub open spec fn spldv_label_text(index: int) -> Seq<char> {
    if index == 0 {
        "a1"@
    } else if index == 1 {
        "b1"@
    } else if index == 2 {
        "c1"@
    } else if index == 3 {
        "a2"@
    } else if index == 4 {
        "b2"@
    } else {
        "c2"@
    }
}

/// The label of a field of the one-variable form: `a`, then `b`.
pub open spec fn splsv_label_text(index: int) -> Seq<char> {
    if index == 0 {
        "a"@
    } else {
        "b"@
    }
}

/// The label of a field of the two-variable form, if the form has the field.
pub fn spldv_label(index: usize) -> (label: Option<&'static str>)
    ensures
        label.is_some() == (index < 6),
        label matches Some(text) ==> text@ == spldv_label_text(index as int),
{
    if index == 0 {
        Some("a1")
    } else if index == 1 {
        Some("b1")
    } else if index == 2 {
        Some("c1")
    } else if index == 3 {
        Some("a2")
    } else if index == 4 {
        Some("b2")
    } else if index == 5 {
        Some("c2")
    } else {
        None
    }
}

/// The label of a field of the one-variable form, if the form has the field.
pub fn splsv_label(index: usize) -> (label: Option<&'static str>)
    ensures
        label.is_some() == (index < 2),
        label matches Some(text) ==> text@ == splsv_label_text(index as int),
{
    if index == 0 {
        Some("a")
    } else if index == 1 {
        Some("b")
    } else {
        None
    }
}

/// The colours a field is drawn in, its border first and its text second: the
/// field under the cursor is yellow throughout, any other has a blue border
/// and text in the foreground colour.
pub open spec fn field_colors_of(index: int, selected: int, theme: Seq<char>) -> (Color, Color) {
    if index == selected {
        (theme_color("yellow"@, theme), theme_color("yellow"@, theme))
    } else {
        (theme_color("blue"@, theme), theme_color("fg"@, theme))
    }
}

/// The colours to draw a field in, given the field the cursor is on.
pub fn field_colors(index: usize, selected: usize, theme: &str) -> (colors: (Color, Color))
    ensures
        colors == field_colors_of(index as int, selected as int, theme@),
{
    if index == selected {
        (get_theme_color("yellow", theme), get_theme_color("yellow", theme))
    } else {
        (get_theme_color("blue", theme), get_theme_color("fg", theme))
    }
}

} // verus!
