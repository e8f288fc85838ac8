use vstd::prelude::*;

use crate::color::Color;
use crate::config::{CustomTheme, ThemeConfig};
use crate::laws::lemma_resolve_themes_keeps_builtins;
use crate::names::{
    eq_ignore_ascii_case, names_match, normalize_name, spec_eq_ignore_ascii_case, spec_normalize,
};
use crate::scheme::{
    spec_default_theme, spec_dracula, spec_github_dark, spec_nord, spec_solarized_dark,
    spec_solarized_light, ColorScheme,
};

verus! {

/// A color scheme with the name users refer to it by, in config and in the
/// status bar. Built-ins and `[[theme.custom]]` entries are the same shape, so
/// theme cycling doesn't care where a theme came from.
#[derive(Debug)]
pub struct NamedTheme {
    pub name: String,
    pub colors: ColorScheme,
    pub custom: bool,
}

impl Clone for NamedTheme {
    fn clone(&self) -> (r: Self)
        ensures
            r@ == self@,
    {
        NamedTheme { name: self.name.clone(), colors: self.colors, custom: self.custom }
    }
}

/// What a `NamedTheme` is: its name as characters, its scheme, and whether a
/// `[[theme.custom]]` entry defined or changed it.
pub struct ThemeView {
    pub name: Seq<char>,
    pub colors: ColorScheme,
    pub custom: bool,
}

impl View for NamedTheme {
    type V = ThemeView;

    open spec fn view(&self) -> ThemeView {
        ThemeView { name: self.name@, colors: self.colors, custom: self.custom }
    }
}

/// The views of a list of themes.
pub open spec fn views(s: Seq<NamedTheme>) -> Seq<ThemeView> {
    s.map_values(|t: NamedTheme| t@)
}

/// The built-in themes, in cycle order.
pub open spec fn builtin_theme_views() -> Seq<ThemeView> {
    seq![
        ThemeView { name: "Default"@, colors: spec_default_theme(), custom: false },
        ThemeView { name: "Dracula"@, colors: spec_dracula(), custom: false },
        ThemeView { name: "Solarized Dark"@, colors: spec_solarized_dark(), custom: false },
        ThemeView { name: "Solarized Light"@, colors: spec_solarized_light(), custom: false },
        ThemeView { name: "GitHub Dark"@, colors: spec_github_dark(), custom: false },
        ThemeView { name: "Nord"@, colors: spec_nord(), custom: false },
    ]
}

fn named(name: &str, colors: ColorScheme) -> (t: NamedTheme)
    ensures
        t@ == (ThemeView { name: name@, colors, custom: false }),
{
    NamedTheme { name: String::from_str(name), colors, custom: false }
}

/// Returns the built-in themes in cycle order.
pub fn builtin_themes() -> (r: Vec<NamedTheme>)
    ensures
        views(r@) == builtin_theme_views(),
        forall|i: int| 0 <= i < r@.len() ==> (#[trigger] r@[i]).colors.spec_uses_rgb(),
{
    let mut v: Vec<NamedTheme> = Vec::new();
    v.push(named("Default", ColorScheme::default_theme()));
    v.push(named("Dracula", ColorScheme::dracula()));
    v.push(named("Solarized Dark", ColorScheme::solarized_dark()));
    v.push(named("Solarized Light", ColorScheme::solarized_light()));
    v.push(named("GitHub Dark", ColorScheme::github_dark()));
    v.push(named("Nord", ColorScheme::nord()));
    assert(views(v@) =~= builtin_theme_views());
    assert forall|i: int| 0 <= i < v@.len() implies (#[trigger] v@[i]).colors.spec_uses_rgb() by {
        assert(v@[i].colors == views(v@)[i].colors);
    }
    v
}

/// `i` is the position of the first theme whose name matches `name`.
pub open spec fn is_first_match(themes: Seq<ThemeView>, name: Seq<char>, i: int) -> bool {
    &&& 0 <= i < themes.len()
    &&& names_match(themes[i].name, name)
    &&& forall|j: int| 0 <= j < i ==> !names_match(#[trigger] themes[j].name, name)
}

/// Case- and space-insensitive lookup of a theme by name: the position of the
/// first theme whose name matches, if any does.
pub open spec fn spec_find_index(themes: Seq<ThemeView>, name: Seq<char>) -> Option<int> {
    if exists|i: int| #[trigger] is_first_match(themes, name, i) {
        Some(choose|i: int| #[trigger] is_first_match(themes, name, i))
    } else {
        None
    }
}

/// There is at most one first match.
pub proof fn lemma_first_match_unique(themes: Seq<ThemeView>, name: Seq<char>, i: int, k: int)
    requires
        is_first_match(themes, name, i),
        is_first_match(themes, name, k),
    ensures
        i == k,
{
    if i < k {
        assert(!names_match(themes[i].name, name));
    } else if k < i {
        assert(!names_match(themes[k].name, name));
    }
}

/// `spec_find_index` names the first match exactly.
pub proof fn lemma_find_index_is_first_match(themes: Seq<ThemeView>, name: Seq<char>, i: int)
    requires
        is_first_match(themes, name, i),
    ensures
        spec_find_index(themes, name) == Some(i),
{
    let k = choose|k: int| #[trigger] is_first_match(themes, name, k);
    lemma_first_match_unique(themes, name, i, k);
}

/// A name that matches some theme has a first match.
pub proof fn lemma_find_index_some(themes: Seq<ThemeView>, name: Seq<char>, k: int)
    requires
        0 <= k < themes.len(),
        names_match(themes[k].name, name),
    ensures
        spec_find_index(themes, name) is Some,
    decreases k,
{
    if forall|j: int| 0 <= j < k ==> !names_match(#[trigger] themes[j].name, name) {
        assert(is_first_match(themes, name, k));
        lemma_find_index_is_first_match(themes, name, k);
    } else {
        let j = choose|j: int| 0 <= j < k && names_match(#[trigger] themes[j].name, name);
        lemma_find_index_some(themes, name, j);
    }
}

/// What `spec_find_index` returns, stated over the positions.
pub proof fn lemma_find_index_spec(themes: Seq<ThemeView>, name: Seq<char>)
    ensures
        spec_find_index(themes, name) matches Some(i) ==> is_first_match(themes, name, i),
        spec_find_index(themes, name) is None ==> forall|j: int|
            0 <= j < themes.len() ==> !names_match(#[trigger] themes[j].name, name),
{
    if spec_find_index(themes, name) is None {
        assert forall|j: int| 0 <= j < themes.len() implies !names_match(
            #[trigger] themes[j].name,
            name,
        ) by {
            if names_match(themes[j].name, name) {
                lemma_find_index_some(themes, name, j);
            }
        }
    }
}

/// Case- and space-insensitive lookup of a theme by name.
fn find_index(themes: &Vec<NamedTheme>, name: &str) -> (r: Option<usize>)
    ensures
        r matches Some(i) ==> spec_find_index(views(themes@), name@) == Some(i as int),
        r is None ==> spec_find_index(views(themes@), name@) is None,
{
    let needle = normalize_name(name);
    let ghost vs = views(themes@);
    let mut i: usize = 0;
    while i < themes.len()
        invariant
            vs == views(themes@),
            needle@ == spec_normalize(name@),
            0 <= i <= themes@.len(),
            forall|j: int| 0 <= j < i ==> !names_match(#[trigger] vs[j].name, name@),
        decreases themes@.len() - i,
    {
        let key = normalize_name(themes[i].name.as_str());
        assert(vs[i as int].name == themes@[i as int].name@);
        if key == needle {
            proof {
                assert(is_first_match(vs, name@, i as int));
                lemma_find_index_is_first_match(vs, name@, i as int);
            }
            return Some(i);
        }
        i = i + 1;
    }
    proof {
        lemma_find_index_spec(vs, name@);
        if let Some(k) = spec_find_index(vs, name@) {
            assert(!names_match(vs[k].name, name@));
        }
    }
    None
}


/// Why themes could not be resolved.
#[derive(Clone, Debug)]
pub enum ThemeError {
    /// The theme asked for on the command line does not exist; `available`
    /// lists the names of all themes, separated by ", ".
    UnknownTheme { name: String, available: String },
    /// A custom theme `inherits` from a theme that is not defined before it.
    InheritedThemeNotFound { name: String },
}

/// What a `ThemeError` is, with its names as characters.
pub enum ThemeErrorView {
    UnknownTheme { name: Seq<char>, available: Seq<char> },
    InheritedThemeNotFound { name: Seq<char> },
}

impl View for ThemeError {
    type V = ThemeErrorView;

    open spec fn view(&self) -> ThemeErrorView {
        match self {
            ThemeError::UnknownTheme { name, available } => ThemeErrorView::UnknownTheme {
                name: name@,
                available: available@,
            },
            ThemeError::InheritedThemeNotFound { name } => ThemeErrorView::InheritedThemeNotFound {
                name: name@,
            },
        }
    }
}

/// The text of an unknown-theme error.
pub open spec fn unknown_theme_message(name: Seq<char>, available: Seq<char>) -> Seq<char> {
    "Unknown theme '"@ + name + "'. Available themes: "@ + available
}

/// The text of an error for an `inherits` that names no earlier theme.
pub open spec fn inherited_not_found_message(name: Seq<char>) -> Seq<char> {
    "Theme '"@ + name
        + "' referenced in 'inherits' not found. If it's a custom theme, make sure it appears earlier in [[theme.custom]]."@
}

/// The text of an error, as the viewer reports it.
pub open spec fn error_message(e: ThemeErrorView) -> Seq<char> {
    match e {
        ThemeErrorView::UnknownTheme { name, available } => unknown_theme_message(name, available),
        ThemeErrorView::InheritedThemeNotFound { name } => inherited_not_found_message(name),
    }
}

impl ThemeError {
    /// The text of the error, as the viewer reports it.
    pub fn message(&self) -> (r: String)
        ensures
            r@ == error_message(self@),
    {
        match self {
            ThemeError::UnknownTheme { name, available } => {
                let mut s = String::from_str("Unknown theme '");
                s.append(name.as_str());
                s.append("'. Available themes: ");
                s.append(available.as_str());
                s
            },
            ThemeError::InheritedThemeNotFound { name } => {
                let mut s = String::from_str("Theme '");
                s.append(name.as_str());
                s.append(
                    "' referenced in 'inherits' not found. If it's a custom theme, make sure it appears earlier in [[theme.custom]].",
                );
                s
            },
        }
    }
}

/// The names of the themes, in order, separated by ", ".
pub open spec fn join_names(themes: Seq<ThemeView>) -> Seq<char>
    decreases themes.len(),
{
    if themes.len() == 0 {
        Seq::empty()
    } else if themes.len() == 1 {
        themes[0].name
    } else {
        join_names(themes.drop_last()) + ", "@ + themes.last().name
    }
}

/// The names of the themes, in order, separated by ", ".
fn format_names(themes: &Vec<NamedTheme>) -> (r: String)
    ensures
        r@ == join_names(views(themes@)),
{
    let ghost vs = views(themes@);
    let mut s = String::new();
    let mut i: usize = 0;
    while i < themes.len()
        invariant
            vs == views(themes@),
            0 <= i <= themes@.len(),
            s@ == join_names(vs.take(i as int)),
        decreases themes@.len() - i,
    {
        proof {
            let prefix = vs.take(i as int + 1);
            assert(prefix.drop_last() =~= vs.take(i as int));
            assert(prefix.last() == themes@[i as int]@);
            if i == 0 {
                assert(prefix.len() == 1);
                assert(prefix[0] == themes@[0]@);
            }
        }
        if i > 0 {
            s.append(", ");
        }
        s.append(themes[i].name.as_str());
        i = i + 1;
    }
    assert(vs.take(themes@.len() as int) =~= vs);
    s
}

/// A colour given by name, else the alias, else the base colour.
pub open spec fn pick(explicit: Option<Color>, alias: Option<Color>, base: Color) -> Color {
    match explicit {
        Some(c) => c,
        None => match alias {
            Some(a) => a,
            None => base,
        },
    }
}

/// An optional background given by name, else the alias, else the base one.
pub open spec fn pick_opt(explicit: Option<Color>, alias: Option<Color>, base: Option<Color>) -> Option<Color> {
    match explicit {
        Some(c) => Some(c),
        None => match alias {
            Some(a) => Some(a),
            None => base,
        },
    }
}

/// A colour given by name, else the base colour.
pub open spec fn pick_explicit(explicit: Option<Color>, base: Color) -> Color {
    match explicit {
        Some(c) => c,
        None => base,
    }
}

/// A custom theme's fields applied over a base scheme.
///
/// The `foreground`/`background` aliases only touch elements meant to look
/// uniform. Anything whose job is to stand out — the cursor cell, the current
/// row and column, search highlights — takes only its own field, so it keeps
/// the contrast the parent theme designed in.
pub open spec fn spec_apply_custom_fields(base: ColorScheme, c: CustomTheme) -> ColorScheme {
    ColorScheme {
        string_fg: pick(c.string_fg, c.foreground, base.string_fg),
        number_fg: pick(c.number_fg, c.foreground, base.number_fg),
        bool_fg: pick(c.bool_fg, c.foreground, base.bool_fg),
        datetime_fg: pick(c.datetime_fg, c.foreground, base.datetime_fg),
        error_fg: pick(c.error_fg, c.foreground, base.error_fg),
        empty_fg: pick(c.empty_fg, c.foreground, base.empty_fg),
        header_fg: pick(c.header_fg, c.foreground, base.header_fg),
        header_bg: pick_opt(c.header_bg, c.background, base.header_bg),
        current_cell_fg: pick_explicit(c.current_cell_fg, base.current_cell_fg),
        current_cell_bg: pick_explicit(c.current_cell_bg, base.current_cell_bg),
        current_row_bg: pick_explicit(c.current_row_bg, base.current_row_bg),
        current_col_fg: pick_explicit(c.current_col_fg, base.current_col_fg),
        alternating_row_bg: pick_opt(c.alternating_row_bg, c.background, base.alternating_row_bg),
        search_match_fg: pick_explicit(c.search_match_fg, base.search_match_fg),
        search_match_bg: pick_explicit(c.search_match_bg, base.search_match_bg),
        current_search_fg: pick_explicit(c.current_search_fg, base.current_search_fg),
        current_search_bg: pick_explicit(c.current_search_bg, base.current_search_bg),
        border_fg: pick(c.border_fg, c.foreground, base.border_fg),
        status_bar_fg: pick(c.status_bar_fg, c.foreground, base.status_bar_fg),
        status_bar_bg: pick_opt(c.status_bar_bg, c.background, base.status_bar_bg),
    }
}

/// A colour given by name, else the alias, else the base colour.
fn pick_color(explicit: Option<Color>, alias: Option<Color>, base: Color) -> (r: Color)
    ensures
        r == pick(explicit, alias, base),
        alias is None ==> r == pick_explicit(explicit, base),
{
    match explicit {
        Some(c) => c,
        None => match alias {
            Some(a) => a,
            None => base,
        },
    }
}

/// An optional background given by name, else the alias, else the base one.
fn pick_background(explicit: Option<Color>, alias: Option<Color>, base: Option<Color>) -> (r: Option<Color>)
    ensures
        r == pick_opt(explicit, alias, base),
{
    match explicit {
        Some(c) => Some(c),
        None => match alias {
            Some(a) => Some(a),
            None => base,
        },
    }
}

/// Apply a custom theme's fields over a base scheme (see
/// `spec_apply_custom_fields`): the `foreground` and `background` aliases
/// first, then every field given by name over them.
fn apply_custom_fields(colors: ColorScheme, custom: &CustomTheme) -> (r: ColorScheme)
    ensures
        r == spec_apply_custom_fields(colors, *custom),
{
    let fg = custom.foreground;
    let bg = custom.background;
    ColorScheme {
        string_fg: pick_color(custom.string_fg, fg, colors.string_fg),
        number_fg: pick_color(custom.number_fg, fg, colors.number_fg),
        bool_fg: pick_color(custom.bool_fg, fg, colors.bool_fg),
        datetime_fg: pick_color(custom.datetime_fg, fg, colors.datetime_fg),
        error_fg: pick_color(custom.error_fg, fg, colors.error_fg),
        empty_fg: pick_color(custom.empty_fg, fg, colors.empty_fg),
        header_fg: pick_color(custom.header_fg, fg, colors.header_fg),
        header_bg: pick_background(custom.header_bg, bg, colors.header_bg),
        current_cell_fg: pick_color(custom.current_cell_fg, None, colors.current_cell_fg),
        current_cell_bg: pick_color(custom.current_cell_bg, None, colors.current_cell_bg),
        current_row_bg: pick_color(custom.current_row_bg, None, colors.current_row_bg),
        current_col_fg: pick_color(custom.current_col_fg, None, colors.current_col_fg),
        alternating_row_bg: pick_background(custom.alternating_row_bg, bg, colors.alternating_row_bg),
        search_match_fg: pick_color(custom.search_match_fg, None, colors.search_match_fg),
        search_match_bg: pick_color(custom.search_match_bg, None, colors.search_match_bg),
        current_search_fg: pick_color(custom.current_search_fg, None, colors.current_search_fg),
        current_search_bg: pick_color(custom.current_search_bg, None, colors.current_search_bg),
        border_fg: pick_color(custom.border_fg, fg, colors.border_fg),
        status_bar_fg: pick_color(custom.status_bar_fg, fg, colors.status_bar_fg),
        status_bar_bg: pick_background(custom.status_bar_bg, bg, colors.status_bar_bg),
    }
}

/// The scheme a custom theme starts from before its own fields are applied:
/// the theme it `inherits` (an error, carrying the parent's name, if there is
/// none), or without `inherits` an existing theme of the same name, else the
/// default scheme.
pub open spec fn spec_resolve_base(themes: Seq<ThemeView>, c: CustomTheme) -> Result<ColorScheme, Seq<char>> {
    match c.inherits {
        None => match spec_find_index(themes, c.name@) {
            Some(i) => Ok(themes[i].colors),
            None => Ok(spec_default_theme()),
        },
        Some(parent) => match spec_find_index(themes, parent@) {
            Some(i) => Ok(themes[i].colors),
            None => Err(parent@),
        },
    }
}

/// The scheme a custom theme starts from before its own fields are applied.
///
/// When `inherits` is absent, fall back to an existing theme with the same
/// name so that `name = "Dracula"` + one field inherits the built-in Dracula
/// palette rather than silently resetting every untouched field to Default.
fn resolve_base(themes: &Vec<NamedTheme>, custom: &CustomTheme) -> (r: Result<ColorScheme, ThemeError>)
    ensures
        match (r, spec_resolve_base(views(themes@), *custom)) {
            (Ok(c), Ok(s)) => c == s,
            (Err(e), Err(p)) => e@ == (ThemeErrorView::InheritedThemeNotFound { name: p }),
            _ => false,
        },
{
    match &custom.inherits {
        None => match find_index(themes, custom.name.as_str()) {
            Some(idx) => Ok(themes[idx].colors),
            None => Ok(ColorScheme::default_theme()),
        },
        Some(parent_name) => match find_index(themes, parent_name.as_str()) {
            Some(idx) => Ok(themes[idx].colors),
            None => Err(ThemeError::InheritedThemeNotFound { name: parent_name.clone() }),
        },
    }
}

/// One custom theme merged into the list: it replaces the first theme whose
/// name matches (keeping that theme's name and place) or is appended.
pub open spec fn spec_merge_custom(themes: Seq<ThemeView>, c: CustomTheme) -> Result<Seq<ThemeView>, Seq<char>> {
    match spec_resolve_base(themes, c) {
        Err(p) => Err(p),
        Ok(base) => {
            let colors = spec_apply_custom_fields(base, c);
            match spec_find_index(themes, c.name@) {
                Some(i) => Ok(themes.update(i, ThemeView { name: themes[i].name, colors, custom: true })),
                None => Ok(themes.push(ThemeView { name: c.name@, colors, custom: true })),
            }
        },
    }
}

/// The custom themes merged onto the built-ins, in config order; an error
/// carries the name that the first failing `inherits` gave.
pub open spec fn spec_resolve_themes(customs: Seq<CustomTheme>) -> Result<Seq<ThemeView>, Seq<char>>
    decreases customs.len(),
{
    if customs.len() == 0 {
        Ok(builtin_theme_views())
    } else {
        match spec_resolve_themes(customs.drop_last()) {
            Err(p) => Err(p),
            Ok(themes) => spec_merge_custom(themes, customs.last()),
        }
    }
}

/// Once a prefix of the custom themes fails, so does every longer prefix.
proof fn lemma_resolve_error_persists(customs: Seq<CustomTheme>, k: int)
    requires
        0 <= k <= customs.len(),
        spec_resolve_themes(customs.take(k)) is Err,
    ensures
        spec_resolve_themes(customs) == spec_resolve_themes(customs.take(k)),
    decreases customs.len() - k,
{
    if k < customs.len() {
        assert(customs.take(k + 1).drop_last() =~= customs.take(k));
        lemma_resolve_error_persists(customs, k + 1);
    } else {
        assert(customs.take(k) =~= customs);
    }
}

/// Merge custom themes onto the built-ins.
///
/// Customs are resolved in config order, so a theme can only inherit from one
/// defined before it. That ordering requirement is what makes circular
/// `inherits` chains unrepresentable rather than something we have to detect.
/// A custom sharing a built-in's name replaces it in place, keeping cycle order
/// stable.
pub fn resolve_themes(custom_themes: &[CustomTheme]) -> (r: Result<Vec<NamedTheme>, ThemeError>)
    ensures
        match (r, spec_resolve_themes(custom_themes@)) {
            (Ok(v), Ok(s)) => views(v@) == s,
            (Err(e), Err(p)) => e@ == (ThemeErrorView::InheritedThemeNotFound { name: p }),
            _ => false,
        },
{
    let mut themes = builtin_themes();
    let mut i: usize = 0;
    assert(custom_themes@.take(0) =~= Seq::<CustomTheme>::empty());
    while i < custom_themes.len()
        invariant
            0 <= i <= custom_themes@.len(),
            spec_resolve_themes(custom_themes@.take(i as int)) == Ok::<Seq<ThemeView>, Seq<char>>(
                views(themes@),
            ),
        decreases custom_themes@.len() - i,
    {
        let custom = &custom_themes[i];
        let ghost prefix = custom_themes@.take(i as int + 1);
        assert(prefix.drop_last() =~= custom_themes@.take(i as int));
        assert(prefix.last() == *custom);
        let base = match resolve_base(&themes, custom) {
            Ok(b) => b,
            Err(e) => {
                proof {
                    lemma_resolve_error_persists(custom_themes@, i as int + 1);
                }
                return Err(e);
            },
        };
        let colors = apply_custom_fields(base, custom);
        let ghost old_views = views(themes@);
        match find_index(&themes, custom.name.as_str()) {
            Some(idx) => {
                let name = themes[idx].name.clone();
                themes.set(idx, NamedTheme { name, colors, custom: true });
                assert(views(themes@) =~= old_views.update(
                    idx as int,
                    ThemeView { name: old_views[idx as int].name, colors, custom: true },
                ));
            },
            None => {
                themes.push(NamedTheme { name: custom.name.clone(), colors, custom: true });
                assert(views(themes@) =~= old_views.push(
                    ThemeView { name: custom.name@, colors, custom: true },
                ));
            },
        }
        i = i + 1;
    }
    assert(custom_themes@.take(custom_themes@.len() as int) =~= custom_themes@);
    Ok(themes)
}


/// Every theme available this run, plus which one is active.
///
/// Invariants: `themes` is never empty (it always contains the built-ins) and
/// `current` is always a valid index, so `current()` cannot panic.
#[derive(Debug)]
pub struct ThemeSet {
    themes: Vec<NamedTheme>,
    current: usize,
}

/// The theme after `i` in a cycle of `len` themes, wrapping at the end.
pub open spec fn next_index(i: int, len: int) -> int {
    (i + 1) % len
}

/// The name of the theme selected at start-up: the command-line override if
/// given, else the configured default.
pub open spec fn startup_name(config: ThemeConfig, override_name: Option<&str>) -> Seq<char> {
    match override_name {
        Some(n) => n@,
        None => config.default@,
    }
}

/// The warning given when the configured default theme does not exist.
pub open spec fn fallback_warning(name: Seq<char>) -> Seq<char> {
    "theme '"@ + name + "' not found, falling back to 'Default'"@
}

impl ThemeSet {
    #[verifier::type_invariant]
    spec fn inv(self) -> bool {
        0 < self.themes@.len() && self.current < self.themes@.len()
    }

    /// A copy of a theme list.
    fn clone_themes(themes: &Vec<NamedTheme>) -> (r: Vec<NamedTheme>)
        ensures
            views(r@) == views(themes@),
    {
        let mut out: Vec<NamedTheme> = Vec::new();
        let mut i: usize = 0;
        while i < themes.len()
            invariant
                0 <= i <= themes@.len(),
                views(out@) == views(themes@).take(i as int),
            decreases themes@.len() - i,
        {
            let t = themes[i].clone();
            assert(t@ == themes@[i as int]@);
            let ghost before = out@;
            out.push(t);
            assert(views(out@) =~= views(before).push(t@));
            assert(views(out@) =~= views(themes@).take(i as int + 1));
            i = i + 1;
        }
        assert(views(themes@).take(themes@.len() as int) =~= views(themes@));
        out
    }

    /// All themes, in cycle order.
    pub closed spec fn spec_themes(&self) -> Seq<ThemeView> {
        views(self.themes@)
    }

    /// The position of the active theme.
    pub closed spec fn spec_current(&self) -> int {
        self.current as int
    }

    /// Whether `r` is what `resolve` returns for a configuration and an
    /// optional command-line override.
    pub open spec fn resolve_outcome(
        config: ThemeConfig,
        override_name: Option<&str>,
        r: Result<(ThemeSet, Vec<String>), ThemeError>,
    ) -> bool {
        let startup = startup_name(config, override_name);
        match spec_resolve_themes(config.custom@) {
            Err(p) => r matches Err(e) && e@ == (ThemeErrorView::InheritedThemeNotFound { name: p }),
            Ok(themes) => match spec_find_index(themes, startup) {
                Some(i) => r matches Ok((set, warnings)) && set.spec_themes() == themes
                    && set.spec_current() == i && warnings@.len() == 0,
                None => if override_name is Some {
                    r matches Err(e) && e@ == (ThemeErrorView::UnknownTheme {
                        name: startup,
                        available: join_names(themes),
                    })
                } else {
                    r matches Ok((set, warnings)) && set.spec_themes() == themes
                        && set.spec_current() == 0 && warnings@.len() == 1
                        && warnings@[0]@ == fallback_warning(startup)
                },
            },
        }
    }

    /// Build the theme list from config and select the startup theme.
    ///
    /// When `override_name` is `Some`, it takes precedence over the config
    /// default and is a **hard error** if not found (it came from `--theme`,
    /// so the user explicitly asked for it). An unknown config default is
    /// recoverable, so it comes back as a warning instead.
    pub fn resolve(config: &ThemeConfig, override_name: Option<&str>) -> (r: Result<(Self, Vec<String>), ThemeError>)
        ensures
            Self::resolve_outcome(*config, override_name, r),
            r matches Ok((set, _)) ==> 0 <= set.spec_current() < set.spec_themes().len(),
            r matches Ok((set, warnings)) ==> (warnings@.len() > 0 ==> set.spec_themes()[set.spec_current()].name
                == "Default"@),
    {
        let themes = match resolve_themes(config.custom.as_slice()) {
            Ok(t) => t,
            Err(e) => return Err(e),
        };
        let ghost vs = views(themes@);
        proof {
            lemma_resolve_themes_keeps_builtins(config.custom@);
        }
        let mut warnings: Vec<String> = Vec::new();
        let startup_name: &str = match override_name {
            Some(n) => n,
            None => config.default.as_str(),
        };
        let current = match find_index(&themes, startup_name) {
            Some(idx) => idx,
            None => {
                if override_name.is_some() {
                    let available = format_names(&themes);
                    return Err(ThemeError::UnknownTheme { name: String::from_str(startup_name), available });
                }
                let mut w = String::from_str("theme '");
                w.append(startup_name);
                w.append("' not found, falling back to 'Default'");
                warnings.push(w);
                0
            },
        };
        let set = ThemeSet { themes, current };
        assert(set.spec_themes() == vs);
        Ok((set, warnings))
    }

    /// Colors for the active theme.
    pub fn current(&self) -> (r: &ColorScheme)
        ensures
            *r == self.spec_themes()[self.spec_current()].colors,
            0 <= self.spec_current() < self.spec_themes().len(),
    {
        proof {
            use_type_invariant(self);
        }
        &self.themes[self.current].colors
    }

    /// Display name of the active theme.
    pub fn current_name(&self) -> (r: &str)
        ensures
            r@ == self.spec_themes()[self.spec_current()].name,
            0 <= self.spec_current() < self.spec_themes().len(),
    {
        proof {
            use_type_invariant(self);
        }
        self.themes[self.current].name.as_str()
    }

    /// Advance to the next theme, wrapping. Built-ins come first, then customs
    /// in the order they appear in config.
    pub fn cycle(&mut self)
        ensures
            final(self).spec_themes() == old(self).spec_themes(),
            final(self).spec_current() == next_index(old(self).spec_current(), old(self).spec_themes().len() as int),
            0 <= final(self).spec_current() < final(self).spec_themes().len(),
    {
        proof {
            use_type_invariant(&*self);
        }
        let len = self.themes.len();
        self.current = (self.current + 1) % len;
    }
}

impl Clone for ThemeSet {
    fn clone(&self) -> (r: Self)
        ensures
            r.spec_themes() == self.spec_themes(),
            r.spec_current() == self.spec_current(),
    {
        proof {
            use_type_invariant(self);
        }
        let themes = ThemeSet::clone_themes(&self.themes);
        assert(themes@.len() == views(themes@).len());
        ThemeSet { themes, current: self.current }
    }
}

/// Convenience wrapper for `main.rs`: resolve themes + select the startup
/// theme, with `--theme` override support.
pub fn resolve_themes_from_config(config: &ThemeConfig, override_name: Option<&str>) -> (r: Result<(ThemeSet, Vec<String>), ThemeError>)
    ensures
        ThemeSet::resolve_outcome(*config, override_name, r),
        r matches Ok((set, _)) ==> 0 <= set.spec_current() < set.spec_themes().len(),
        r matches Ok((set, warnings)) ==> (warnings@.len() > 0 ==> set.spec_themes()[set.spec_current()].name
            == "Default"@),
{
    ThemeSet::resolve(config, override_name)
}

/// Whether a `COLORTERM` value advertises 24-bit colour.
pub open spec fn advertises_truecolor(v: Seq<char>) -> bool {
    spec_eq_ignore_ascii_case(v, "truecolor"@) || spec_eq_ignore_ascii_case(v, "24bit"@)
}

/// The warning for an RGB theme when `COLORTERM` is not set.
pub open spec fn colorterm_unset_warning(name: Seq<char>) -> Seq<char> {
    "Theme '"@ + name + "' uses RGB colors, but COLORTERM is not set. Colors may not display correctly."@
}

/// The warning for an RGB theme when `COLORTERM` has another value.
pub open spec fn colorterm_mismatch_warning(name: Seq<char>, value: Seq<char>) -> Seq<char> {
    "Theme '"@ + name + "' uses RGB colors, but COLORTERM is '"@ + value
        + "' (expected 'truecolor' or '24bit'). Colors may not display correctly."@
}

/// The truecolor warning for a theme and the value of `COLORTERM`: only a
/// custom theme that uses RGB colours is warned about, and only when
/// `COLORTERM` does not advertise 24-bit colour.
pub open spec fn spec_truecolor_warning(theme: ThemeView, colorterm: Option<Seq<char>>) -> Option<Seq<char>> {
    if !theme.custom || !theme.colors.spec_uses_rgb() {
        None
    } else {
        match colorterm {
            Some(v) => if advertises_truecolor(v) {
                None
            } else {
                Some(colorterm_mismatch_warning(theme.name, v))
            },
            None => Some(colorterm_unset_warning(theme.name)),
        }
    }
}

/// The view of an optional string.
pub open spec fn opt_str_view(s: Option<&str>) -> Option<Seq<char>> {
    match s {
        Some(v) => Some(v@),
        None => None,
    }
}

/// Check whether the active theme needs truecolor and warn if the terminal
/// doesn't advertise it. Only fires for custom themes — every non-Default
/// built-in uses `Color::Rgb`, so warning unconditionally would nag users
/// who never touched their config.
pub fn truecolor_warning(themes: &ThemeSet, colorterm: Option<&str>) -> (r: Option<String>)
    ensures
        match r {
            Some(w) => spec_truecolor_warning(
                themes.spec_themes()[themes.spec_current()],
                opt_str_view(colorterm),
            ) == Some(w@),
            None => spec_truecolor_warning(
                themes.spec_themes()[themes.spec_current()],
                opt_str_view(colorterm),
            ) is None,
        },
{
    proof {
        use_type_invariant(themes);
    }
    let theme = &themes.themes[themes.current];
    assert(themes.spec_themes()[themes.spec_current()] == theme@);
    if !theme.custom || !theme.colors.uses_rgb() {
        return None;
    }
    match colorterm {
        Some(v) => {
            if eq_ignore_ascii_case(v, "truecolor") || eq_ignore_ascii_case(v, "24bit") {
                None
            } else {
                let mut w = String::from_str("Theme '");
                w.append(theme.name.as_str());
                w.append("' uses RGB colors, but COLORTERM is '");
                w.append(v);
                w.append("' (expected 'truecolor' or '24bit'). Colors may not display correctly.");
                Some(w)
            }
        },
        None => {
            let mut w = String::from_str("Theme '");
            w.append(theme.name.as_str());
            w.append("' uses RGB colors, but COLORTERM is not set. Colors may not display correctly.");
            Some(w)
        },
    }
}

} // verus!
