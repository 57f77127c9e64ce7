use dfr_config::color::{
    button_overrides, ButtonColorOverride, ColorConfig, ColorConfigProxy, Rgb, Theme, LEVEL_0,
    LEVEL_10, LEVEL_100, LEVEL_15, LEVEL_20, LEVEL_35, LEVEL_40, LEVEL_60, LEVEL_70, LEVEL_80,
    LEVEL_90,
};

fn rgb(r: f64, g: f64, b: f64) -> Rgb {
    [r.to_bits(), g.to_bits(), b.to_bits()]
}

fn no_override() -> ButtonColorOverride {
    ButtonColorOverride {
        button_background_inactive: None,
        button_background_active: None,
        icon_color: None,
        icon_color_active: None,
        text_color: None,
    }
}

fn empty_section() -> ColorConfigProxy {
    ColorConfigProxy {
        theme: None,
        button_background_inactive: None,
        button_background_active: None,
        icon_color: None,
        icon_color_active: None,
        text_color: None,
        button_overrides: None,
    }
}

fn assert_palette(colors: &ColorConfig, expected: [Rgb; 5]) {
    assert_eq!(colors.button_background_inactive, expected[0]);
    assert_eq!(colors.button_background_active, expected[1]);
    assert_eq!(colors.icon_color, expected[2]);
    assert_eq!(colors.icon_color_active, expected[3]);
    assert_eq!(colors.text_color, expected[4]);
}

fn dark() -> [Rgb; 5] {
    [
        rgb(0.2, 0.2, 0.2),
        rgb(0.4, 0.4, 0.4),
        rgb(1.0, 1.0, 1.0),
        rgb(1.0, 1.0, 1.0),
        rgb(1.0, 1.0, 1.0),
    ]
}

fn light() -> [Rgb; 5] {
    [
        rgb(0.9, 0.9, 0.9),
        rgb(0.7, 0.7, 0.7),
        rgb(0.1, 0.1, 0.1),
        rgb(0.0, 0.0, 0.0),
        rgb(0.1, 0.1, 0.1),
    ]
}

fn colorful() -> [Rgb; 5] {
    [
        rgb(0.15, 0.15, 0.15),
        rgb(0.35, 0.35, 0.35),
        rgb(1.0, 0.8, 0.6),
        rgb(1.0, 1.0, 0.8),
        rgb(1.0, 1.0, 1.0),
    ]
}

fn minimal() -> [Rgb; 5] {
    [
        rgb(0.1, 0.1, 0.1),
        rgb(0.2, 0.2, 0.2),
        rgb(0.9, 0.9, 0.9),
        rgb(1.0, 1.0, 1.0),
        rgb(0.9, 0.9, 0.9),
    ]
}

#[test]
fn levels_are_the_bits_of_their_doubles() {
    assert_eq!(f64::from_bits(LEVEL_0), 0.0);
    assert_eq!(f64::from_bits(LEVEL_10), 0.1);
    assert_eq!(f64::from_bits(LEVEL_15), 0.15);
    assert_eq!(f64::from_bits(LEVEL_20), 0.2);
    assert_eq!(f64::from_bits(LEVEL_35), 0.35);
    assert_eq!(f64::from_bits(LEVEL_40), 0.4);
    assert_eq!(f64::from_bits(LEVEL_60), 0.6);
    assert_eq!(f64::from_bits(LEVEL_70), 0.7);
    assert_eq!(f64::from_bits(LEVEL_80), 0.8);
    assert_eq!(f64::from_bits(LEVEL_90), 0.9);
    assert_eq!(f64::from_bits(LEVEL_100), 1.0);
}

#[test]
fn default_colors_are_the_dark_palette() {
    let colors = ColorConfig::default();
    assert_palette(&colors, dark());
    assert!(colors.button_overrides.is_none());
}

#[test]
fn light_theme_palette() {
    let colors = ColorConfig::from_theme("light");
    assert_palette(&colors, light());
    assert!(colors.button_overrides.is_none());
}

#[test]
fn colorful_theme_palette() {
    let colors = ColorConfig::from_theme("colorful");
    assert_palette(&colors, colorful());
    assert!(colors.button_overrides.is_none());
}

#[test]
fn minimal_theme_palette() {
    let colors = ColorConfig::from_theme("minimal");
    assert_palette(&colors, minimal());
    assert!(colors.button_overrides.is_none());
}

#[test]
fn theme_names_are_matched_whatever_their_case() {
    assert_palette(&ColorConfig::from_theme("LIGHT"), light());
    assert_palette(&ColorConfig::from_theme("Light"), light());
    assert_palette(&ColorConfig::from_theme("lIgHt"), light());
    assert_palette(&ColorConfig::from_theme("Colorful"), colorful());
    assert_palette(&ColorConfig::from_theme("COLORFUL"), colorful());
    assert_palette(&ColorConfig::from_theme("MiNiMaL"), minimal());
}

#[test]
fn other_names_give_the_dark_palette() {
    assert_palette(&ColorConfig::from_theme("dark"), dark());
    assert_palette(&ColorConfig::from_theme("Dark"), dark());
    assert_palette(&ColorConfig::from_theme(""), dark());
    assert_palette(&ColorConfig::from_theme("solarized"), dark());
    assert_palette(&ColorConfig::from_theme(" light"), dark());
    assert_palette(&ColorConfig::from_theme("light "), dark());
    assert_palette(&ColorConfig::from_theme("lights"), dark());
    assert_palette(&ColorConfig::from_theme("colourful"), dark());
    assert_palette(&ColorConfig::from_theme("\u{1F3A8}"), dark());
}

#[test]
fn from_name_compares_the_name_as_it_stands() {
    assert_eq!(Theme::from_name("light"), Theme::Light);
    assert_eq!(Theme::from_name("colorful"), Theme::Colorful);
    assert_eq!(Theme::from_name("minimal"), Theme::Minimal);
    assert_eq!(Theme::from_name("dark"), Theme::Dark);
    assert_eq!(Theme::from_name("Light"), Theme::Dark);
    assert_eq!(Theme::from_name("MINIMAL"), Theme::Dark);
    assert_eq!(Theme::from_name(""), Theme::Dark);
}

#[test]
fn each_theme_builds_its_own_palette() {
    assert_palette(&Theme::Dark.palette(), dark());
    assert_palette(&Theme::Light.palette(), light());
    assert_palette(&Theme::Colorful.palette(), colorful());
    assert_palette(&Theme::Minimal.palette(), minimal());
}

#[test]
fn button_without_overrides_has_the_palette() {
    let colors = ColorConfig::from_theme("colorful");
    let expected = colorful();
    assert_eq!(
        colors.get_button_colors("esc"),
        (expected[0], expected[1], expected[2], expected[3], expected[4])
    );
}

#[test]
fn override_replaces_only_the_colors_it_sets() {
    let red = rgb(1.0, 0.0, 0.0);
    let grey = rgb(0.5, 0.5, 0.5);
    let mut colors = ColorConfig::default();
    colors.button_overrides = Some(button_overrides(&vec![(
        "esc".to_string(),
        ButtonColorOverride { text_color: Some(red), button_background_active: Some(grey), ..no_override() },
    )]));
    let palette = dark();
    assert_eq!(
        colors.get_button_colors("esc"),
        (palette[0], grey, palette[2], palette[3], red)
    );
    assert_eq!(
        colors.get_button_colors("F1"),
        (palette[0], palette[1], palette[2], palette[3], palette[4])
    );
    assert_eq!(
        colors.get_button_colors("Esc"),
        (palette[0], palette[1], palette[2], palette[3], palette[4])
    );
}

#[test]
fn override_may_replace_all_five_colors() {
    let all = ButtonColorOverride {
        button_background_inactive: Some(rgb(0.01, 0.02, 0.03)),
        button_background_active: Some(rgb(0.04, 0.05, 0.06)),
        icon_color: Some(rgb(0.07, 0.08, 0.09)),
        icon_color_active: Some(rgb(0.10, 0.11, 0.12)),
        text_color: Some(rgb(0.13, 0.14, 0.15)),
    };
    let mut colors = ColorConfig::from_theme("light");
    colors.button_overrides = Some(button_overrides(&vec![("F5".to_string(), all)]));
    assert_eq!(
        colors.get_button_colors("F5"),
        (
            rgb(0.01, 0.02, 0.03),
            rgb(0.04, 0.05, 0.06),
            rgb(0.07, 0.08, 0.09),
            rgb(0.10, 0.11, 0.12),
            rgb(0.13, 0.14, 0.15)
        )
    );
}

#[test]
fn empty_override_changes_nothing() {
    let mut colors = ColorConfig::from_theme("minimal");
    colors.button_overrides = Some(button_overrides(&vec![("F5".to_string(), no_override())]));
    let palette = minimal();
    assert_eq!(
        colors.get_button_colors("F5"),
        (palette[0], palette[1], palette[2], palette[3], palette[4])
    );
}

#[test]
fn asking_twice_gives_the_same_colors() {
    let mut colors = ColorConfig::from_theme("light");
    colors.button_overrides = Some(button_overrides(&vec![(
        "esc".to_string(),
        ButtonColorOverride { icon_color: Some(rgb(0.3, 0.3, 0.3)), ..no_override() },
    )]));
    let first = colors.get_button_colors("esc");
    let second = colors.get_button_colors("esc");
    assert_eq!(first, second);
    assert_eq!(first.2, rgb(0.3, 0.3, 0.3));
    let first = colors.get_button_colors("F2");
    let second = colors.get_button_colors("F2");
    assert_eq!(first, second);
}

#[test]
fn later_entry_for_a_button_counts() {
    let overrides = button_overrides(&vec![
        ("esc".to_string(), ButtonColorOverride { text_color: Some(rgb(0.1, 0.1, 0.1)), ..no_override() }),
        ("F1".to_string(), ButtonColorOverride { text_color: Some(rgb(0.2, 0.2, 0.2)), ..no_override() }),
        ("esc".to_string(), ButtonColorOverride { icon_color: Some(rgb(0.3, 0.3, 0.3)), ..no_override() }),
    ]);
    assert_eq!(overrides.len(), 2);
    let mut colors = ColorConfig::default();
    colors.button_overrides = Some(overrides);
    let palette = dark();
    assert_eq!(colors.get_button_colors("esc").4, palette[4]);
    assert_eq!(colors.get_button_colors("esc").2, rgb(0.3, 0.3, 0.3));
    assert_eq!(colors.get_button_colors("F1").4, rgb(0.2, 0.2, 0.2));
}

#[test]
fn no_entries_give_no_overrides() {
    let overrides = button_overrides(&Vec::new());
    assert_eq!(overrides.len(), 0);
    assert!(overrides.get("esc").is_none());
}

#[test]
fn default_section_sets_nothing() {
    let section = ColorConfigProxy::default();
    assert!(section.theme.is_none());
    assert!(section.button_background_inactive.is_none());
    assert!(section.button_background_active.is_none());
    assert!(section.icon_color.is_none());
    assert!(section.icon_color_active.is_none());
    assert!(section.text_color.is_none());
    assert!(section.button_overrides.is_none());
}

#[test]
fn section_that_sets_nothing_resolves_to_dark() {
    let colors = empty_section().to_color_config();
    assert_palette(&colors, dark());
    assert!(colors.button_overrides.is_none());
}

#[test]
fn section_with_a_theme_resolves_to_its_palette() {
    let section = ColorConfigProxy { theme: Some("Minimal".to_string()), ..empty_section() };
    assert_palette(&section.to_color_config(), minimal());
    let section = ColorConfigProxy { theme: Some("no such theme".to_string()), ..empty_section() };
    assert_palette(&section.to_color_config(), dark());
}

#[test]
fn section_colors_replace_those_of_the_theme() {
    let section = ColorConfigProxy {
        theme: Some("LIGHT".to_string()),
        icon_color: Some(rgb(0.25, 0.5, 0.75)),
        text_color: Some(rgb(0.0, 0.0, 1.0)),
        ..empty_section()
    };
    let colors = section.to_color_config();
    let palette = light();
    assert_palette(
        &colors,
        [palette[0], palette[1], rgb(0.25, 0.5, 0.75), palette[3], rgb(0.0, 0.0, 1.0)],
    );
}

#[test]
fn section_colors_replace_those_of_the_dark_palette_without_a_theme() {
    let section = ColorConfigProxy {
        button_background_inactive: Some(rgb(0.3, 0.3, 0.3)),
        button_background_active: Some(rgb(0.6, 0.6, 0.6)),
        icon_color_active: Some(rgb(0.9, 0.1, 0.1)),
        ..empty_section()
    };
    let colors = section.to_color_config();
    let palette = dark();
    assert_palette(
        &colors,
        [rgb(0.3, 0.3, 0.3), rgb(0.6, 0.6, 0.6), palette[2], rgb(0.9, 0.1, 0.1), palette[4]],
    );
}

#[test]
fn section_overrides_are_kept_for_the_buttons() {
    let section = ColorConfigProxy {
        theme: Some("colorful".to_string()),
        text_color: Some(rgb(0.5, 0.5, 0.5)),
        button_overrides: Some(button_overrides(&vec![(
            "esc".to_string(),
            ButtonColorOverride { button_background_inactive: Some(rgb(0.8, 0.0, 0.0)), ..no_override() },
        )])),
        ..empty_section()
    };
    let colors = section.to_color_config();
    let palette = colorful();
    assert_eq!(
        colors.get_button_colors("esc"),
        (rgb(0.8, 0.0, 0.0), palette[1], palette[2], palette[3], rgb(0.5, 0.5, 0.5))
    );
    assert_eq!(
        colors.get_button_colors("F1"),
        (palette[0], palette[1], palette[2], palette[3], rgb(0.5, 0.5, 0.5))
    );
}

#[test]
fn colors_pass_bit_for_bit() {
    let odd = [f64::NAN.to_bits(), (-0.0f64).to_bits(), 1.0e-310f64.to_bits()];
    let section = ColorConfigProxy { text_color: Some(odd), ..empty_section() };
    let colors = section.to_color_config();
    assert_eq!(colors.text_color, odd);
    assert_eq!(colors.get_button_colors("x").4, odd);
}
