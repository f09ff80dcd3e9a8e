use spltui::themes::gruvbox::{GruvboxDark, GruvboxLight};
use spltui::ui::{field_colors, get_theme_color, spldv_label, splsv_label, Color};

#[test]
fn dark_theme_colors() {
    assert_eq!(get_theme_color("orange", "dark"), Color::Rgb(214, 93, 14));
    assert_eq!(get_theme_color("yellow", "dark"), Color::Rgb(215, 153, 33));
    assert_eq!(get_theme_color("green", "dark"), Color::Rgb(152, 151, 26));
    assert_eq!(get_theme_color("blue", "dark"), Color::Rgb(69, 133, 136));
    assert_eq!(get_theme_color("cyan", "dark"), Color::Rgb(104, 157, 106));
    assert_eq!(get_theme_color("red", "dark"), Color::Rgb(204, 36, 29));
    assert_eq!(get_theme_color("gray", "dark"), Color::Rgb(146, 131, 116));
    assert_eq!(get_theme_color("fg", "dark"), Color::Rgb(235, 219, 178));
    assert_eq!(get_theme_color("bg", "dark"), Color::Rgb(40, 40, 40));
}

#[test]
fn light_theme_colors() {
    assert_eq!(get_theme_color("orange", "light"), Color::Rgb(214, 93, 14));
    assert_eq!(get_theme_color("yellow", "light"), Color::Rgb(215, 153, 33));
    assert_eq!(get_theme_color("green", "light"), Color::Rgb(152, 151, 26));
    assert_eq!(get_theme_color("blue", "light"), Color::Rgb(69, 133, 136));
    assert_eq!(get_theme_color("cyan", "light"), Color::Rgb(104, 157, 106));
    assert_eq!(get_theme_color("red", "light"), Color::Rgb(204, 36, 29));
    assert_eq!(get_theme_color("gray", "light"), Color::Rgb(146, 131, 116));
    assert_eq!(get_theme_color("fg", "light"), Color::Rgb(60, 56, 54));
    assert_eq!(get_theme_color("bg", "light"), Color::Rgb(251, 241, 199));
}

#[test]
fn unknown_name_is_the_background() {
    assert_eq!(get_theme_color("purple", "dark"), Color::Rgb(40, 40, 40));
    assert_eq!(get_theme_color("", "dark"), Color::Rgb(40, 40, 40));
    assert_eq!(get_theme_color("Red", "dark"), Color::Rgb(40, 40, 40));
    assert_eq!(get_theme_color("purple", "light"), Color::Rgb(251, 241, 199));
    assert_eq!(get_theme_color("", "light"), Color::Rgb(251, 241, 199));
}

#[test]
fn unknown_theme_is_white() {
    assert_eq!(get_theme_color("red", "solarized"), Color::White);
    assert_eq!(get_theme_color("red", ""), Color::White);
    assert_eq!(get_theme_color("red", "Dark"), Color::White);
    assert_eq!(get_theme_color("nothing", "LIGHT"), Color::White);
}

#[test]
fn palettes_hold_the_gruvbox_colors() {
    assert_eq!(GruvboxDark::BG, (40, 40, 40));
    assert_eq!(GruvboxDark::FG, (235, 219, 178));
    assert_eq!(GruvboxDark::PURPLE, (177, 98, 134));
    assert_eq!(GruvboxDark::ORANGE_ALT, (254, 128, 25));
    assert_eq!(GruvboxDark::BG0_H, (29, 32, 33));
    assert_eq!(GruvboxLight::BG, (251, 241, 199));
    assert_eq!(GruvboxLight::FG, (60, 56, 54));
    assert_eq!(GruvboxLight::GRAY, (124, 108, 100));
    assert_eq!(GruvboxLight::ORANGE_ALT, (175, 58, 3));
    assert_eq!(GruvboxLight::FG0, GruvboxDark::BG0);
    assert_eq!(GruvboxLight::BG1, GruvboxDark::FG1);
}

#[test]
fn two_variable_form_labels() {
    let labels: Vec<_> = (0..7).map(spldv_label).collect();
    assert_eq!(
        labels,
        vec![Some("a1"), Some("b1"), Some("c1"), Some("a2"), Some("b2"), Some("c2"), None]
    );
}

#[test]
fn one_variable_form_labels() {
    assert_eq!(splsv_label(0), Some("a"));
    assert_eq!(splsv_label(1), Some("b"));
    assert_eq!(splsv_label(2), None);
}

#[test]
fn field_under_the_cursor_is_yellow() {
    let yellow = Color::Rgb(215, 153, 33);
    assert_eq!(field_colors(3, 3, "dark"), (yellow, yellow));
    assert_eq!(field_colors(0, 0, "light"), (yellow, yellow));
    assert_eq!(field_colors(1, 1, "other"), (Color::White, Color::White));
}

#[test]
fn other_fields_have_a_blue_border() {
    let blue = Color::Rgb(69, 133, 136);
    assert_eq!(field_colors(2, 3, "dark"), (blue, Color::Rgb(235, 219, 178)));
    assert_eq!(field_colors(1, 0, "light"), (blue, Color::Rgb(60, 56, 54)));
    assert_eq!(field_colors(1, 0, "other"), (Color::White, Color::White));
}
