use tui_theme::color::Color;
use tui_theme::config::{CustomTheme, ThemeConfig};
use tui_theme::names::normalize_name;
use tui_theme::scheme::ColorScheme;
use tui_theme::theme::{builtin_themes, resolve_themes, truecolor_warning, NamedTheme, ThemeSet};

const BUILTIN_COUNT: usize = 6;

/// Look a theme up by name so tests don't depend on cycle position.
fn colors_of<'a>(themes: &'a [NamedTheme], name: &str) -> &'a ColorScheme {
    let key = normalize_name(name);
    let idx = themes
        .iter()
        .position(|t| normalize_name(&t.name) == key)
        .unwrap_or_else(|| panic!("no theme named '{name}'"));
    &themes[idx].colors
}

fn custom(name: &str) -> CustomTheme {
    CustomTheme {
        name: name.into(),
        ..Default::default()
    }
}

// =========================================================================
// Theme Resolution
// =========================================================================

#[test]
fn resolve_themes_without_customs_returns_builtins() {
    let themes = resolve_themes(&[]).unwrap();
    assert_eq!(themes.len(), BUILTIN_COUNT);
    assert_eq!(themes[0].name, "Default");
    assert_eq!(themes[BUILTIN_COUNT - 1].name, "Nord");
}

#[test]
fn custom_replaces_builtin_of_same_name_in_place() {
    let themes = resolve_themes(&[CustomTheme {
        inherits: Some("Dracula".into()),
        string_fg: Some(Color::Green),
        ..custom("Dracula")
    }])
    .unwrap();

    // Replaced, not appended, so cycle order is unchanged.
    assert_eq!(themes.len(), BUILTIN_COUNT);
    assert_eq!(themes[1].name, "Dracula");

    let c = colors_of(&themes, "Dracula");
    assert_eq!(c.string_fg, Color::Green);
    // Untouched fields still come from Dracula, not from Default.
    assert_eq!(c.number_fg, Color::Rgb(189, 147, 249));
}

#[test]
fn custom_with_new_name_is_appended() {
    let themes = resolve_themes(&[custom("Brand New")]).unwrap();
    assert_eq!(themes.len(), BUILTIN_COUNT + 1);
    assert_eq!(themes[BUILTIN_COUNT].name, "Brand New");
}

#[test]
fn custom_can_inherit_an_earlier_custom() {
    let themes = resolve_themes(&[
        CustomTheme {
            inherits: Some("Nord".into()),
            string_fg: Some(Color::Rgb(1, 2, 3)),
            ..custom("parent")
        },
        CustomTheme {
            inherits: Some("parent".into()),
            number_fg: Some(Color::Rgb(4, 5, 6)),
            ..custom("child")
        },
    ])
    .unwrap();

    let c = colors_of(&themes, "child");
    assert_eq!(c.string_fg, Color::Rgb(1, 2, 3), "inherited from parent");
    assert_eq!(c.number_fg, Color::Rgb(4, 5, 6), "own field");
    assert_eq!(c.bool_fg, Color::Rgb(180, 142, 173), "from Nord via parent");
}

#[test]
fn inherits_unknown_theme_is_an_error() {
    let err = resolve_themes(&[CustomTheme {
        inherits: Some("NonExistent".into()),
        ..custom("Bad")
    }])
    .unwrap_err();
    assert!(err.message().contains("not found"));
}

#[test]
fn inheriting_a_later_custom_is_an_error() {
    // Forward references are rejected; that's what rules out cycles.
    let err = resolve_themes(&[
        CustomTheme {
            inherits: Some("second".into()),
            ..custom("first")
        },
        custom("second"),
    ])
    .unwrap_err();
    assert!(err.message().contains("appears earlier"));
}

#[test]
fn theme_names_match_loosely() {
    let themes = resolve_themes(&[CustomTheme {
        inherits: Some("solarizeddark".into()),
        ..custom("loose")
    }])
    .unwrap();
    assert_eq!(
        colors_of(&themes, "loose").number_fg,
        Color::Rgb(38, 139, 210),
        "'solarizeddark' should resolve to 'Solarized Dark'"
    );
}

#[test]
fn override_without_inherits_falls_back_to_same_name() {
    let themes = resolve_themes(&[CustomTheme {
        string_fg: Some(Color::Green),
        ..custom("Dracula")
    }])
    .unwrap();

    let c = colors_of(&themes, "Dracula");
    assert_eq!(c.string_fg, Color::Green, "explicit override applied");
    assert_eq!(
        c.number_fg,
        Color::Rgb(189, 147, 249),
        "number_fg should come from built-in Dracula, not Default"
    );
}

#[test]
fn theme_names_match_with_hyphens_and_underscores() {
    let themes = resolve_themes(&[CustomTheme {
        inherits: Some("solarized-dark".into()),
        ..custom("hyphen")
    }])
    .unwrap();
    assert_eq!(
        colors_of(&themes, "hyphen").number_fg,
        Color::Rgb(38, 139, 210),
    );

    let themes = resolve_themes(&[CustomTheme {
        inherits: Some("github_dark".into()),
        ..custom("underscore")
    }])
    .unwrap();
    assert_eq!(
        colors_of(&themes, "underscore").number_fg,
        Color::Rgb(121, 192, 255),
    );
}

// =========================================================================
// foreground / background aliases
// =========================================================================

#[test]
fn foreground_alias_sets_uniform_fields_and_yields_to_explicit_fields() {
    let themes = resolve_themes(&[CustomTheme {
        inherits: Some("Default".into()),
        foreground: Some(Color::Blue),
        string_fg: Some(Color::Red),
        ..custom("AliasTest")
    }])
    .unwrap();

    let c = colors_of(&themes, "AliasTest");
    assert_eq!(c.number_fg, Color::Blue);
    assert_eq!(c.header_fg, Color::Blue);
    assert_eq!(c.border_fg, Color::Blue);
    assert_eq!(c.status_bar_fg, Color::Blue);
    assert_eq!(c.string_fg, Color::Red, "explicit field wins over alias");
}

#[test]
fn background_alias_sets_uniform_fields_and_yields_to_explicit_fields() {
    let themes = resolve_themes(&[CustomTheme {
        inherits: Some("Default".into()),
        background: Some(Color::Rgb(10, 10, 10)),
        current_row_bg: Some(Color::Rgb(30, 30, 30)),
        ..custom("BgTest")
    }])
    .unwrap();

    let c = colors_of(&themes, "BgTest");
    assert_eq!(c.header_bg, Some(Color::Rgb(10, 10, 10)));
    assert_eq!(c.alternating_row_bg, Some(Color::Rgb(10, 10, 10)));
    assert_eq!(c.status_bar_bg, Some(Color::Rgb(10, 10, 10)));
    assert_eq!(c.current_row_bg, Color::Rgb(30, 30, 30), "explicit wins");
}

/// Setting only `background` must not collapse `current_row_bg` and
/// `current_cell_bg` onto it, or the cursor row becomes invisible. The same
/// holds for every element whose job is to contrast against the bulk of the
/// table.
#[test]
fn aliases_never_flatten_the_elements_that_provide_contrast() {
    let fg = Color::Rgb(192, 202, 245);
    let bg = Color::Rgb(26, 27, 38);
    let themes = resolve_themes(&[CustomTheme {
        inherits: Some("Default".into()),
        foreground: Some(fg),
        background: Some(bg),
        ..custom("NavTest")
    }])
    .unwrap();

    let c = colors_of(&themes, "NavTest");
    let default = ColorScheme::default_theme();

    for (label, got, inherited) in [
        ("current_row_bg", c.current_row_bg, default.current_row_bg),
        (
            "current_cell_bg",
            c.current_cell_bg,
            default.current_cell_bg,
        ),
        (
            "current_cell_fg",
            c.current_cell_fg,
            default.current_cell_fg,
        ),
        ("current_col_fg", c.current_col_fg, default.current_col_fg),
        (
            "search_match_fg",
            c.search_match_fg,
            default.search_match_fg,
        ),
        (
            "search_match_bg",
            c.search_match_bg,
            default.search_match_bg,
        ),
        (
            "current_search_fg",
            c.current_search_fg,
            default.current_search_fg,
        ),
        (
            "current_search_bg",
            c.current_search_bg,
            default.current_search_bg,
        ),
    ] {
        assert_eq!(
            got, inherited,
            "{label} should inherit, not follow an alias"
        );
        assert_ne!(got, fg, "{label} was flattened onto the foreground alias");
        assert_ne!(got, bg, "{label} was flattened onto the background alias");
    }

    // These must stay distinguishable.
    assert_ne!(c.current_row_bg, c.current_cell_bg);
}

// =========================================================================
// ThemeSet
// =========================================================================

#[test]
fn resolve_selects_the_configured_default() {
    let cfg = ThemeConfig {
        default: "nord".into(),
        custom: Vec::new(),
    };
    let (set, warnings) = ThemeSet::resolve(&cfg, None).unwrap();
    assert_eq!(set.current_name(), "Nord");
    assert!(warnings.is_empty());
}

#[test]
fn resolve_warns_and_falls_back_when_default_is_unknown() {
    let cfg = ThemeConfig {
        default: "nope".into(),
        custom: Vec::new(),
    };
    let (set, warnings) = ThemeSet::resolve(&cfg, None).unwrap();
    assert_eq!(set.current_name(), "Default");
    assert_eq!(warnings.len(), 1);
    assert!(warnings[0].contains("nope"));
}

#[test]
fn override_selects_theme_by_name() {
    let cfg = ThemeConfig {
        default: "Default".into(),
        custom: Vec::new(),
    };
    let (set, warnings) = ThemeSet::resolve(&cfg, Some("Dracula")).unwrap();
    assert_eq!(set.current_name(), "Dracula");
    assert!(warnings.is_empty());
}

#[test]
fn override_unknown_theme_is_a_hard_error() {
    let cfg = ThemeConfig {
        default: "Default".into(),
        custom: Vec::new(),
    };
    let err = ThemeSet::resolve(&cfg, Some("nope")).unwrap_err();
    let msg = err.message();
    assert!(msg.contains("Unknown theme 'nope'"), "{msg}");
    assert!(
        msg.contains("Default"),
        "should list available themes: {msg}"
    );
}

#[test]
fn override_beats_config_default() {
    let cfg = ThemeConfig {
        default: "Nord".into(),
        custom: Vec::new(),
    };
    let (set, _) = ThemeSet::resolve(&cfg, Some("Dracula")).unwrap();
    assert_eq!(set.current_name(), "Dracula");
}

#[test]
fn cycle_visits_every_theme_and_wraps() {
    let cfg = ThemeConfig {
        default: "Default".into(),
        custom: vec![custom("mine")],
    };
    let (mut set, _) = ThemeSet::resolve(&cfg, None).unwrap();

    let mut seen = vec![set.current_name().to_string()];
    for _ in 0..BUILTIN_COUNT {
        set.cycle();
        seen.push(set.current_name().to_string());
    }

    // Built-ins first, then customs, then back to the start.
    assert_eq!(seen.first().unwrap(), "Default");
    assert_eq!(seen[BUILTIN_COUNT], "mine", "customs cycle after built-ins");
    set.cycle();
    assert_eq!(set.current_name(), "Default", "wraps around");
}

// =========================================================================
// Truecolor warning
// =========================================================================

#[test]
fn truecolor_warning_silent_for_builtins() {
    let cfg = ThemeConfig {
        default: "Nord".into(),
        custom: Vec::new(),
    };
    let (set, _) = ThemeSet::resolve(&cfg, None).unwrap();
    assert!(set.current().uses_rgb());
    assert!(truecolor_warning(&set, None).is_none());
}

#[test]
fn truecolor_warning_fires_for_custom_with_rgb() {
    let cfg = ThemeConfig {
        default: "mine".into(),
        custom: vec![CustomTheme {
            inherits: Some("Nord".into()),
            string_fg: Some(Color::Rgb(1, 2, 3)),
            ..custom("mine")
        }],
    };
    let (set, _) = ThemeSet::resolve(&cfg, None).unwrap();
    let w = truecolor_warning(&set, None);
    assert!(w.is_some(), "should warn");
    assert!(w.as_ref().unwrap().contains("COLORTERM is not set"));
}

#[test]
fn truecolor_warning_silent_when_colorterm_is_truecolor() {
    let cfg = ThemeConfig {
        default: "mine".into(),
        custom: vec![CustomTheme {
            inherits: Some("Nord".into()),
            ..custom("mine")
        }],
    };
    let (set, _) = ThemeSet::resolve(&cfg, None).unwrap();
    assert!(truecolor_warning(&set, Some("truecolor")).is_none());
    assert!(truecolor_warning(&set, Some("24bit")).is_none());
}

#[test]
fn truecolor_warning_reports_actual_colorterm_value() {
    let cfg = ThemeConfig {
        default: "mine".into(),
        custom: vec![CustomTheme {
            inherits: Some("Nord".into()),
            ..custom("mine")
        }],
    };
    let (set, _) = ThemeSet::resolve(&cfg, None).unwrap();
    let w = truecolor_warning(&set, Some("256color")).unwrap();
    assert!(w.contains("256color"), "should report actual value: {w}");
}

// =========================================================================
// uses_rgb
// =========================================================================

#[test]
fn all_builtins_use_rgb() {
    for t in builtin_themes() {
        assert!(t.colors.uses_rgb(), "{} should use RGB", t.name);
    }
}

#[test]
fn ansi_only_scheme_does_not_use_rgb() {
    let mut c = ColorScheme::default_theme();
    c.alternating_row_bg = None;
    assert!(!c.uses_rgb());
}
