use mecomp_tui::ui::colors::material;
use mecomp_tui::ui::colors::{ColorStore, HexColor, Theme, TuiColorScheme, border_color, initialize_colors, scheme_theme};

#[test]
fn test_border_color() {
    let theme = Theme::default();
    assert_eq!(border_color(&theme, true), theme.border_focused);
    assert_eq!(border_color(&theme, false), theme.border_unfocused);
}

#[test]
fn test_colors() {
    let theme = Theme::default();
    assert_eq!(theme.app_border, HexColor(material::PINK_900));
    assert_eq!(theme.app_border_text, HexColor(material::PINK_300));
    assert_eq!(theme.border_unfocused, HexColor(material::RED_900));
    assert_eq!(theme.border_focused, HexColor(material::RED_200));
    assert_eq!(theme.popup_border, HexColor(material::LIGHT_BLUE_500));
    assert_eq!(theme.text_normal, HexColor(material::WHITE));
    assert_eq!(theme.text_highlight, HexColor(material::RED_600));
    assert_eq!(theme.text_highlight_alt, HexColor(material::RED_200));
    assert_eq!(theme.gauge_filled, HexColor(material::WHITE));
    assert_eq!(theme.gauge_unfilled, HexColor(material::BLACK));

    let scheme = TuiColorScheme {
        app_border: Some(material::PINK_900.to_string()),
        app_border_text: Some(material::PINK_300.to_string()),
        border_unfocused: Some(material::RED_900.to_string()),
        border_focused: Some(material::RED_200.to_string()),
        popup_border: Some(material::LIGHT_BLUE_500.to_string()),
        text_normal: Some(material::WHITE.to_string()),
        text_highlight: Some(material::RED_600.to_string()),
        text_highlight_alt: Some(material::RED_200.to_string()),
        gauge_filled: Some(material::WHITE.to_string()),
        gauge_unfilled: Some(material::BLACK.to_string()),
    };
    let configured = scheme_theme(scheme.clone());
    assert_eq!(configured.app_border.0, material::PINK_900);

    // the colours are initialized once
    let mut store = ColorStore::new();
    assert!(!store.is_initialized());
    assert_eq!(store.theme(), theme);
    initialize_colors(&mut store, scheme);
    assert!(store.is_initialized());
    assert_eq!(store.theme(), configured);
    assert_eq!(configured.gauge_unfilled.0, material::BLACK);
    assert_eq!(configured.text_highlight.0, material::RED_600);
}

#[test]
fn test_parse() {
    let cases: [(Option<HexColor>, &'static str); 10] = [
        (Some(HexColor("#ff0000")), "#ff0000"),
        (Some(HexColor(material::RED_500)), "red_500"),
        (Some(HexColor(material::LIGHT_BLUE_100)), "LIGHT_BLUE_100"),
        (None, "red_5"),
        (None, "#ff00g0"),
        (None, "ff0000"),
        (None, "#ff00"),
        (None, "#ff00000"),
        (None, "ff00"),
        (None, "ff00000"),
    ];
    for (expected, input) in cases {
        assert_eq!(HexColor::parse(input), expected, "{input}");
    }
}

#[test]
fn hex_color_rgb() {
    assert_eq!(HexColor("#ff8000").rgb(), (255, 128, 0));
    assert_eq!(HexColor(material::WHITE).rgb(), (255, 255, 255));
}

#[test]
fn configured_colors_fall_back_on_bad_names() {
    let scheme = TuiColorScheme {
        border_focused: Some("not a colour".to_string()),
        text_normal: Some("#123abc".to_string()),
        ..TuiColorScheme::default()
    };
    let theme = scheme_theme(scheme);
    assert_eq!(theme.border_focused, HexColor(material::RED_200));
    assert_eq!(theme.text_normal.0, "#123abc");
}

#[test]
fn colors_are_set_only_once() {
    let mut store = ColorStore::new();
    initialize_colors(&mut store, TuiColorScheme { border_focused: Some("#123abc".to_string()), ..TuiColorScheme::default() });
    let first = store.theme();
    assert_eq!(first.border_focused.0, "#123abc");
    initialize_colors(&mut store, TuiColorScheme {
        border_focused: Some("#ffffff".to_string()),
        text_normal: Some("red_500".to_string()),
        ..TuiColorScheme::default()
    });
    assert!(store.is_initialized());
    assert_eq!(store.theme(), first);
}

#[test]
fn palette_names_ignore_case() {
    for (s, upper, lower) in [("Red_500", "RED_500", "red_500"), ("White", "WHITE", "white"), ("Nope", "NOPE", "nope")] {
        assert_eq!(HexColor::parse(upper), HexColor::parse(s));
        assert_eq!(HexColor::parse(lower), HexColor::parse(s));
    }
    assert_eq!(HexColor::parse("White"), Some(HexColor(material::WHITE)));
}
