use vstd::prelude::*;

use crate::color::Color;

verus! {

/// A user-defined theme, one `[[theme.custom]]` entry of the configuration.
///
/// It starts from the scheme of the theme it `inherits` (or, without
/// `inherits`, from an existing theme of the same name, else from the default
/// scheme) and sets the fields given here. `foreground` and `background` are
/// aliases that set the uniform text and background elements at once; a
/// field given by name wins over an alias.
#[derive(Clone, Debug)]
pub struct CustomTheme {
    pub name: String,
    pub inherits: Option<String>,
    pub foreground: Option<Color>,
    pub background: Option<Color>,
    pub string_fg: Option<Color>,
    pub number_fg: Option<Color>,
    pub bool_fg: Option<Color>,
    pub datetime_fg: Option<Color>,
    pub error_fg: Option<Color>,
    pub empty_fg: Option<Color>,
    pub header_fg: Option<Color>,
    pub header_bg: Option<Color>,
    pub current_cell_fg: Option<Color>,
    pub current_cell_bg: Option<Color>,
    pub current_row_bg: Option<Color>,
    pub current_col_fg: Option<Color>,
    pub alternating_row_bg: Option<Color>,
    pub search_match_fg: Option<Color>,
    pub search_match_bg: Option<Color>,
    pub current_search_fg: Option<Color>,
    pub current_search_bg: Option<Color>,
    pub border_fg: Option<Color>,
    pub status_bar_fg: Option<Color>,
    pub status_bar_bg: Option<Color>,
}

impl Default for CustomTheme {
    /// A custom theme with an empty name that inherits nothing and sets
    /// nothing.
    fn default() -> (r: Self)
        ensures
            r.name@ == Seq::<char>::empty(),
            r.inherits is None,
            r.foreground is None,
            r.background is None,
            r.string_fg is None,
            r.number_fg is None,
            r.bool_fg is None,
            r.datetime_fg is None,
            r.error_fg is None,
            r.empty_fg is None,
            r.header_fg is None,
            r.header_bg is None,
            r.current_cell_fg is None,
            r.current_cell_bg is None,
            r.current_row_bg is None,
            r.current_col_fg is None,
            r.alternating_row_bg is None,
            r.search_match_fg is None,
            r.search_match_bg is None,
            r.current_search_fg is None,
            r.current_search_bg is None,
            r.border_fg is None,
            r.status_bar_fg is None,
            r.status_bar_bg is None,
    {
        CustomTheme {
            name: String::new(),
            inherits: None,
            foreground: None,
            background: None,
            string_fg: None,
            number_fg: None,
            bool_fg: None,
            datetime_fg: None,
            error_fg: None,
            empty_fg: None,
            header_fg: None,
            header_bg: None,
            current_cell_fg: None,
            current_cell_bg: None,
            current_row_bg: None,
            current_col_fg: None,
            alternating_row_bg: None,
            search_match_fg: None,
            search_match_bg: None,
            current_search_fg: None,
            current_search_bg: None,
            border_fg: None,
            status_bar_fg: None,
            status_bar_bg: None,
        }
    }
}

/// The `[theme]` section of the configuration: the theme to start with and
/// the user-defined themes, in the order they are written.
#[derive(Clone, Debug)]
pub struct ThemeConfig {
    pub default: String,
    pub custom: Vec<CustomTheme>,
}

} // verus!
