use tui_theme::color::Color;
use tui_theme::config::{CustomTheme, ThemeConfig};
use tui_theme::names::{ascii_lower, eq_ignore_ascii_case, normalize_name};
use tui_theme::scheme::{CellKind, ColorScheme};
use tui_theme::theme::{
    builtin_themes, resolve_themes, resolve_themes_from_config, truecolor_warning, ThemeError, ThemeSet,
};

fn named(name: &str) -> CustomTheme {
    CustomTheme {
        name: name.into(),
        ..Default::default()
    }
}

fn config(default: &str, custom: Vec<CustomTheme>) -> ThemeConfig {
    ThemeConfig {
        default: default.into(),
        custom,
    }
}

#[test]
fn normalize_drops_separators_and_lowercases_ascii() {
    assert_eq!(normalize_name("Solarized Dark"), "solarizeddark");
    assert_eq!(normalize_name("GitHub_Dark-x"), "githubdarkx");
    assert_eq!(normalize_name(""), "");
    assert_eq!(normalize_name("Ünïcode Z"), "Ünïcodez");
}

#[test]
fn ascii_lower_touches_only_ascii_capitals() {
    assert_eq!(ascii_lower('A'), 'a');
    assert_eq!(ascii_lower('Z'), 'z');
    assert_eq!(ascii_lower('a'), 'a');
    assert_eq!(ascii_lower('@'), '@');
    assert_eq!(ascii_lower('['), '[');
    assert_eq!(ascii_lower('É'), 'É');
}

#[test]
fn eq_ignore_ascii_case_cases() {
    assert!(eq_ignore_ascii_case("TrueColor", "truecolor"));
    assert!(eq_ignore_ascii_case("24BIT", "24bit"));
    assert!(!eq_ignore_ascii_case("truecolour", "truecolor"));
    assert!(!eq_ignore_ascii_case("truecolo", "truecolor"));
    assert!(eq_ignore_ascii_case("", ""));
}

#[test]
fn builtins_are_in_cycle_order_and_not_custom() {
    let names: Vec<String> = builtin_themes().into_iter().map(|t| t.name).collect();
    assert_eq!(
        names,
        vec!["Default", "Dracula", "Solarized Dark", "Solarized Light", "GitHub Dark", "Nord"]
    );
    assert!(builtin_themes().iter().all(|t| !t.custom));
    assert_eq!(builtin_themes()[5].colors, ColorScheme::nord());
}

#[test]
fn default_scheme_uses_rgb_only_through_alternating_rows() {
    let c = ColorScheme::default_theme();
    assert!(c.uses_rgb());
    assert_eq!(c.alternating_row_bg, Some(Color::Rgb(25, 25, 28)));
    let mut d = c;
    d.alternating_row_bg = Some(Color::Indexed(236));
    assert!(!d.uses_rgb());
    d.status_bar_bg = Some(Color::Rgb(0, 0, 0));
    assert!(d.uses_rgb());
}

#[test]
fn cell_color_follows_the_cell_kind() {
    let c = ColorScheme::dracula();
    assert_eq!(c.cell_color(&CellKind::Empty), c.empty_fg);
    assert_eq!(c.cell_color(&CellKind::String), Color::Rgb(248, 248, 242));
    assert_eq!(c.cell_color(&CellKind::Int), Color::Rgb(189, 147, 249));
    assert_eq!(c.cell_color(&CellKind::Float), Color::Rgb(189, 147, 249));
    assert_eq!(c.cell_color(&CellKind::Bool), Color::Rgb(255, 121, 198));
    assert_eq!(c.cell_color(&CellKind::Error), Color::Rgb(255, 85, 85));
    assert_eq!(c.cell_color(&CellKind::DateTime), Color::Rgb(80, 250, 123));
}

#[test]
fn inherits_error_names_the_missing_parent() {
    let err = resolve_themes(&[CustomTheme {
        inherits: Some("Ghost".into()),
        ..named("x")
    }])
    .unwrap_err();
    match &err {
        ThemeError::InheritedThemeNotFound { name } => assert_eq!(name, "Ghost"),
        other => panic!("unexpected error {other:?}"),
    }
    assert_eq!(
        err.message(),
        "Theme 'Ghost' referenced in 'inherits' not found. If it's a custom theme, make sure it appears earlier in [[theme.custom]]."
    );
}

#[test]
fn unknown_override_lists_every_theme() {
    let cfg = config("Default", vec![named("mine")]);
    let err = ThemeSet::resolve(&cfg, Some("nope")).unwrap_err();
    assert_eq!(
        err.message(),
        "Unknown theme 'nope'. Available themes: Default, Dracula, Solarized Dark, Solarized Light, GitHub Dark, Nord, mine"
    );
}

#[test]
fn fallback_warning_text() {
    let cfg = config("nope", Vec::new());
    let (set, warnings) = resolve_themes_from_config(&cfg, None).unwrap();
    assert_eq!(warnings, vec!["theme 'nope' not found, falling back to 'Default'".to_string()]);
    assert_eq!(set.current_name(), "Default");
}

#[test]
fn error_in_customs_wins_over_startup_lookup() {
    let cfg = config(
        "Nord",
        vec![CustomTheme {
            inherits: Some("later".into()),
            ..named("early")
        }],
    );
    assert!(matches!(
        ThemeSet::resolve(&cfg, Some("Nord")),
        Err(ThemeError::InheritedThemeNotFound { .. })
    ));
}

#[test]
fn every_custom_is_found_and_names_stay_distinct() {
    let themes = resolve_themes(&[named("a"), named("NORD"), named("b"), named("A")]).unwrap();
    let names: Vec<&str> = themes.iter().map(|t| t.name.as_str()).collect();
    assert_eq!(
        names,
        vec!["Default", "Dracula", "Solarized Dark", "Solarized Light", "GitHub Dark", "Nord", "a", "b"]
    );
    assert!(themes[5].custom && themes[6].custom && themes[7].custom);
    assert!(!themes[0].custom);
    // A custom theme named like a built-in, without inherits, starts from it.
    assert_eq!(themes[5].colors, ColorScheme::nord());
    // A new custom theme without inherits starts from the default scheme.
    assert_eq!(themes[6].colors, ColorScheme::default_theme());
}

#[test]
fn later_custom_with_same_name_overrides_earlier() {
    let themes = resolve_themes(&[
        CustomTheme {
            string_fg: Some(Color::Red),
            ..named("mine")
        },
        CustomTheme {
            number_fg: Some(Color::Blue),
            ..named("Mine")
        },
    ])
    .unwrap();
    assert_eq!(themes.len(), 7);
    assert_eq!(themes[6].name, "mine");
    assert_eq!(themes[6].colors.string_fg, Color::Red);
    assert_eq!(themes[6].colors.number_fg, Color::Blue);
}

#[test]
fn background_alias_does_not_touch_contrast_backgrounds() {
    let themes = resolve_themes(&[CustomTheme {
        inherits: Some("Nord".into()),
        background: Some(Color::Black),
        foreground: Some(Color::White),
        ..named("flat")
    }])
    .unwrap();
    let c = themes[6].colors;
    let nord = ColorScheme::nord();
    assert_eq!(c.current_cell_bg, nord.current_cell_bg);
    assert_eq!(c.current_row_bg, nord.current_row_bg);
    assert_eq!(c.search_match_bg, nord.search_match_bg);
    assert_eq!(c.header_bg, Some(Color::Black));
    assert_eq!(c.empty_fg, Color::White);
    assert_eq!(c.datetime_fg, Color::White);
}

#[test]
fn cycle_wraps_after_every_theme() {
    let cfg = config("Nord", vec![named("x"), named("y")]);
    let (mut set, _) = ThemeSet::resolve(&cfg, None).unwrap();
    assert_eq!(set.current_name(), "Nord");
    let mut seen = Vec::new();
    for _ in 0..8 {
        set.cycle();
        seen.push(set.current_name().to_string());
    }
    assert_eq!(
        seen,
        vec!["x", "y", "Default", "Dracula", "Solarized Dark", "Solarized Light", "GitHub Dark", "Nord"]
    );
}

#[test]
fn truecolor_warning_exact_texts_and_case() {
    let cfg = config(
        "mine",
        vec![CustomTheme {
            inherits: Some("Dracula".into()),
            ..named("mine")
        }],
    );
    let (set, _) = ThemeSet::resolve(&cfg, None).unwrap();
    assert_eq!(
        truecolor_warning(&set, Some("xterm")).unwrap(),
        "Theme 'mine' uses RGB colors, but COLORTERM is 'xterm' (expected 'truecolor' or '24bit'). Colors may not display correctly."
    );
    assert_eq!(
        truecolor_warning(&set, None).unwrap(),
        "Theme 'mine' uses RGB colors, but COLORTERM is not set. Colors may not display correctly."
    );
    assert!(truecolor_warning(&set, Some("TrueColor")).is_none());
    assert!(truecolor_warning(&set, Some("24BIT")).is_none());
}

#[test]
fn truecolor_warning_silent_for_ansi_only_custom() {
    let cfg = config(
        "plain",
        vec![CustomTheme {
            alternating_row_bg: Some(Color::DarkGray),
            ..named("plain")
        }],
    );
    let (set, _) = ThemeSet::resolve(&cfg, None).unwrap();
    assert!(!set.current().uses_rgb());
    assert!(truecolor_warning(&set, None).is_none());
}
