use vstd::prelude::*;

use crate::color::Color;
use crate::scheme::{
    spec_default_theme, spec_dracula, spec_github_dark, spec_nord, spec_solarized_dark,
    spec_solarized_light, CellKind, ColorScheme,
};
use crate::names::{is_name_separator, names_match, spec_ascii_lower, spec_eq_ignore_ascii_case, spec_normalize};
use crate::theme::{
    builtin_theme_views, colorterm_mismatch_warning, colorterm_unset_warning, error_message,
    fallback_warning, inherited_not_found_message, unknown_theme_message, ThemeErrorView,
};

verus! {

/// The `Default` palette, element by element.
pub proof fn lemma_default_palette()
    ensures
        spec_default_theme().string_fg == Color::White,
        spec_default_theme().number_fg == Color::Cyan,
        spec_default_theme().bool_fg == Color::Magenta,
        spec_default_theme().datetime_fg == Color::Green,
        spec_default_theme().error_fg == Color::Red,
        spec_default_theme().empty_fg == Color::DarkGray,
        spec_default_theme().header_fg == Color::Yellow,
        spec_default_theme().header_bg == None::<Color>,
        spec_default_theme().current_cell_fg == Color::White,
        spec_default_theme().current_cell_bg == Color::Blue,
        spec_default_theme().current_row_bg == Color::DarkGray,
        spec_default_theme().current_col_fg == Color::Cyan,
        spec_default_theme().alternating_row_bg == Some(Color::Rgb(25, 25, 28)),
        spec_default_theme().search_match_fg == Color::Black,
        spec_default_theme().search_match_bg == Color::LightYellow,
        spec_default_theme().current_search_fg == Color::Black,
        spec_default_theme().current_search_bg == Color::Yellow,
        spec_default_theme().border_fg == Color::White,
        spec_default_theme().status_bar_fg == Color::White,
        spec_default_theme().status_bar_bg == None::<Color>,
{
}

/// The `Dracula` palette, element by element.
pub proof fn lemma_dracula_palette()
    ensures
        spec_dracula().string_fg == Color::Rgb(248, 248, 242),
        spec_dracula().number_fg == Color::Rgb(189, 147, 249),
        spec_dracula().bool_fg == Color::Rgb(255, 121, 198),
        spec_dracula().datetime_fg == Color::Rgb(80, 250, 123),
        spec_dracula().error_fg == Color::Rgb(255, 85, 85),
        spec_dracula().empty_fg == Color::Rgb(98, 114, 164),
        spec_dracula().header_fg == Color::Rgb(139, 233, 253),
        spec_dracula().header_bg == Some(Color::Rgb(68, 71, 90)),
        spec_dracula().current_cell_fg == Color::Rgb(248, 248, 242),
        spec_dracula().current_cell_bg == Color::Rgb(98, 114, 164),
        spec_dracula().current_row_bg == Color::Rgb(68, 71, 90),
        spec_dracula().current_col_fg == Color::Rgb(139, 233, 253),
        spec_dracula().alternating_row_bg == Some(Color::Rgb(50, 52, 65)),
        spec_dracula().search_match_fg == Color::Rgb(40, 42, 54),
        spec_dracula().search_match_bg == Color::Rgb(241, 250, 140),
        spec_dracula().current_search_fg == Color::Rgb(40, 42, 54),
        spec_dracula().current_search_bg == Color::Rgb(255, 184, 108),
        spec_dracula().border_fg == Color::Rgb(98, 114, 164),
        spec_dracula().status_bar_fg == Color::Rgb(248, 248, 242),
        spec_dracula().status_bar_bg == Some(Color::Rgb(68, 71, 90)),
{
}

/// The `Solarized Dark` palette, element by element.
pub proof fn lemma_solarized_dark_palette()
    ensures
        spec_solarized_dark().string_fg == Color::Rgb(131, 148, 150),
        spec_solarized_dark().number_fg == Color::Rgb(38, 139, 210),
        spec_solarized_dark().bool_fg == Color::Rgb(211, 54, 130),
        spec_solarized_dark().datetime_fg == Color::Rgb(133, 153, 0),
        spec_solarized_dark().error_fg == Color::Rgb(220, 50, 47),
        spec_solarized_dark().empty_fg == Color::Rgb(88, 110, 117),
        spec_solarized_dark().header_fg == Color::Rgb(181, 137, 0),
        spec_solarized_dark().header_bg == Some(Color::Rgb(7, 54, 66)),
        spec_solarized_dark().current_cell_fg == Color::Rgb(253, 246, 227),
        spec_solarized_dark().current_cell_bg == Color::Rgb(88, 110, 117),
        spec_solarized_dark().current_row_bg == Color::Rgb(7, 54, 66),
        spec_solarized_dark().current_col_fg == Color::Rgb(42, 161, 152),
        spec_solarized_dark().alternating_row_bg == Some(Color::Rgb(0, 43, 54)),
        spec_solarized_dark().search_match_fg == Color::Rgb(0, 43, 54),
        spec_solarized_dark().search_match_bg == Color::Rgb(181, 137, 0),
        spec_solarized_dark().current_search_fg == Color::Rgb(0, 43, 54),
        spec_solarized_dark().current_search_bg == Color::Rgb(203, 75, 22),
        spec_solarized_dark().border_fg == Color::Rgb(88, 110, 117),
        spec_solarized_dark().status_bar_fg == Color::Rgb(131, 148, 150),
        spec_solarized_dark().status_bar_bg == Some(Color::Rgb(7, 54, 66)),
{
}

/// The `Solarized Light` palette, element by element.
pub proof fn lemma_solarized_light_palette()
    ensures
        spec_solarized_light().string_fg == Color::Rgb(101, 123, 131),
        spec_solarized_light().number_fg == Color::Rgb(38, 139, 210),
        spec_solarized_light().bool_fg == Color::Rgb(211, 54, 130),
        spec_solarized_light().datetime_fg == Color::Rgb(133, 153, 0),
        spec_solarized_light().error_fg == Color::Rgb(220, 50, 47),
        spec_solarized_light().empty_fg == Color::Rgb(147, 161, 161),
        spec_solarized_light().header_fg == Color::Rgb(181, 137, 0),
        spec_solarized_light().header_bg == Some(Color::Rgb(238, 232, 213)),
        spec_solarized_light().current_cell_fg == Color::Rgb(0, 43, 54),
        spec_solarized_light().current_cell_bg == Color::Rgb(147, 161, 161),
        spec_solarized_light().current_row_bg == Color::Rgb(238, 232, 213),
        spec_solarized_light().current_col_fg == Color::Rgb(42, 161, 152),
        spec_solarized_light().alternating_row_bg == Some(Color::Rgb(253, 246, 227)),
        spec_solarized_light().search_match_fg == Color::Rgb(0, 43, 54),
        spec_solarized_light().search_match_bg == Color::Rgb(181, 137, 0),
        spec_solarized_light().current_search_fg == Color::Rgb(253, 246, 227),
        spec_solarized_light().current_search_bg == Color::Rgb(203, 75, 22),
        spec_solarized_light().border_fg == Color::Rgb(147, 161, 161),
        spec_solarized_light().status_bar_fg == Color::Rgb(101, 123, 131),
        spec_solarized_light().status_bar_bg == Some(Color::Rgb(238, 232, 213)),
{
}

/// The `GitHub Dark` palette, element by element.
pub proof fn lemma_github_dark_palette()
    ensures
        spec_github_dark().string_fg == Color::Rgb(201, 209, 217),
        spec_github_dark().number_fg == Color::Rgb(121, 192, 255),
        spec_github_dark().bool_fg == Color::Rgb(255, 125, 163),
        spec_github_dark().datetime_fg == Color::Rgb(127, 219, 202),
        spec_github_dark().error_fg == Color::Rgb(248, 81, 73),
        spec_github_dark().empty_fg == Color::Rgb(110, 118, 129),
        spec_github_dark().header_fg == Color::Rgb(255, 199, 119),
        spec_github_dark().header_bg == Some(Color::Rgb(33, 38, 45)),
        spec_github_dark().current_cell_fg == Color::Rgb(201, 209, 217),
        spec_github_dark().current_cell_bg == Color::Rgb(56, 139, 253),
        spec_github_dark().current_row_bg == Color::Rgb(33, 38, 45),
        spec_github_dark().current_col_fg == Color::Rgb(121, 192, 255),
        spec_github_dark().alternating_row_bg == Some(Color::Rgb(22, 27, 34)),
        spec_github_dark().search_match_fg == Color::Rgb(13, 17, 23),
        spec_github_dark().search_match_bg == Color::Rgb(187, 128, 9),
        spec_github_dark().current_search_fg == Color::Rgb(13, 17, 23),
        spec_github_dark().current_search_bg == Color::Rgb(242, 130, 33),
        spec_github_dark().border_fg == Color::Rgb(48, 54, 61),
        spec_github_dark().status_bar_fg == Color::Rgb(201, 209, 217),
        spec_github_dark().status_bar_bg == Some(Color::Rgb(33, 38, 45)),
{
}

/// The `Nord` palette, element by element.
pub proof fn lemma_nord_palette()
    ensures
        spec_nord().string_fg == Color::Rgb(216, 222, 233),
        spec_nord().number_fg == Color::Rgb(136, 192, 208),
        spec_nord().bool_fg == Color::Rgb(180, 142, 173),
        spec_nord().datetime_fg == Color::Rgb(163, 190, 140),
        spec_nord().error_fg == Color::Rgb(191, 97, 106),
        spec_nord().empty_fg == Color::Rgb(76, 86, 106),
        spec_nord().header_fg == Color::Rgb(235, 203, 139),
        spec_nord().header_bg == Some(Color::Rgb(59, 66, 82)),
        spec_nord().current_cell_fg == Color::Rgb(236, 239, 244),
        spec_nord().current_cell_bg == Color::Rgb(94, 129, 172),
        spec_nord().current_row_bg == Color::Rgb(59, 66, 82),
        spec_nord().current_col_fg == Color::Rgb(136, 192, 208),
        spec_nord().alternating_row_bg == Some(Color::Rgb(46, 52, 64)),
        spec_nord().search_match_fg == Color::Rgb(46, 52, 64),
        spec_nord().search_match_bg == Color::Rgb(235, 203, 139),
        spec_nord().current_search_fg == Color::Rgb(46, 52, 64),
        spec_nord().current_search_bg == Color::Rgb(208, 135, 112),
        spec_nord().border_fg == Color::Rgb(76, 86, 106),
        spec_nord().status_bar_fg == Color::Rgb(216, 222, 233),
        spec_nord().status_bar_bg == Some(Color::Rgb(59, 66, 82)),
{
}

/// The built-in themes, in cycle order, each named after its own palette and
/// none of them marked custom.
pub proof fn lemma_builtin_themes_carry_their_own_palettes()
    ensures
        builtin_theme_views().len() == 6,
        builtin_theme_views()[0].name == "Default"@,
        builtin_theme_views()[0].colors == spec_default_theme(),
        !builtin_theme_views()[0].custom,
        builtin_theme_views()[1].name == "Dracula"@,
        builtin_theme_views()[1].colors == spec_dracula(),
        !builtin_theme_views()[1].custom,
        builtin_theme_views()[2].name == "Solarized Dark"@,
        builtin_theme_views()[2].colors == spec_solarized_dark(),
        !builtin_theme_views()[2].custom,
        builtin_theme_views()[3].name == "Solarized Light"@,
        builtin_theme_views()[3].colors == spec_solarized_light(),
        !builtin_theme_views()[3].custom,
        builtin_theme_views()[4].name == "GitHub Dark"@,
        builtin_theme_views()[4].colors == spec_github_dark(),
        !builtin_theme_views()[4].custom,
        builtin_theme_views()[5].name == "Nord"@,
        builtin_theme_views()[5].colors == spec_nord(),
        !builtin_theme_views()[5].custom,
{
}

/// Each kind of cell is drawn in its own element's colour: empty cells in
/// `empty_fg`, text in `string_fg`, integers and floats alike in `number_fg`,
/// booleans in `bool_fg`, errors in `error_fg` and dates in `datetime_fg`.
pub proof fn lemma_cell_colors(s: ColorScheme)
    ensures
        s.spec_cell_color(CellKind::Empty) == s.empty_fg,
        s.spec_cell_color(CellKind::String) == s.string_fg,
        s.spec_cell_color(CellKind::Int) == s.number_fg,
        s.spec_cell_color(CellKind::Float) == s.number_fg,
        s.spec_cell_color(CellKind::Bool) == s.bool_fg,
        s.spec_cell_color(CellKind::Error) == s.error_fg,
        s.spec_cell_color(CellKind::DateTime) == s.datetime_fg,
{
}

/// Exactly the RGB colours need 24-bit colour support.
pub proof fn lemma_rgb_colors(c: Color, r: u8, g: u8, b: u8)
    ensures
        Color::Rgb(r, g, b).spec_is_rgb(),
        c.spec_is_rgb() ==> exists|x: u8, y: u8, z: u8| c == Color::Rgb(x, y, z),
        !Color::Indexed(r).spec_is_rgb(),
        !Color::White.spec_is_rgb(),
        !Color::Reset.spec_is_rgb(),
{
    if let Color::Rgb(x, y, z) = c {
        assert(c == Color::Rgb(x, y, z));
    }
}

/// A scheme needs 24-bit colour exactly when one of its elements is an RGB
/// colour: any single RGB element is enough, and a scheme without one does not.
pub proof fn lemma_uses_rgb_iff_some_element_is_rgb(s: ColorScheme)
    ensures
        s.string_fg is Rgb ==> s.spec_uses_rgb(),
        s.number_fg is Rgb ==> s.spec_uses_rgb(),
        s.bool_fg is Rgb ==> s.spec_uses_rgb(),
        s.datetime_fg is Rgb ==> s.spec_uses_rgb(),
        s.error_fg is Rgb ==> s.spec_uses_rgb(),
        s.empty_fg is Rgb ==> s.spec_uses_rgb(),
        s.header_fg is Rgb ==> s.spec_uses_rgb(),
        (s.header_bg matches Some(c) && c is Rgb) ==> s.spec_uses_rgb(),
        s.current_cell_fg is Rgb ==> s.spec_uses_rgb(),
        s.current_cell_bg is Rgb ==> s.spec_uses_rgb(),
        s.current_row_bg is Rgb ==> s.spec_uses_rgb(),
        s.current_col_fg is Rgb ==> s.spec_uses_rgb(),
        (s.alternating_row_bg matches Some(c) && c is Rgb) ==> s.spec_uses_rgb(),
        s.search_match_fg is Rgb ==> s.spec_uses_rgb(),
        s.search_match_bg is Rgb ==> s.spec_uses_rgb(),
        s.current_search_fg is Rgb ==> s.spec_uses_rgb(),
        s.current_search_bg is Rgb ==> s.spec_uses_rgb(),
        s.border_fg is Rgb ==> s.spec_uses_rgb(),
        s.status_bar_fg is Rgb ==> s.spec_uses_rgb(),
        (s.status_bar_bg matches Some(c) && c is Rgb) ==> s.spec_uses_rgb(),
        (!(s.string_fg is Rgb) && !(s.number_fg is Rgb) && !(s.bool_fg is Rgb) && !(s.datetime_fg is Rgb) && !(s.error_fg is Rgb) && !(s.empty_fg is Rgb) && !(s.header_fg is Rgb) && !(s.header_bg matches Some(c) && c is Rgb) && !(s.current_cell_fg is Rgb) && !(s.current_cell_bg is Rgb) && !(s.current_row_bg is Rgb) && !(s.current_col_fg is Rgb) && !(s.alternating_row_bg matches Some(c) && c is Rgb) && !(s.search_match_fg is Rgb) && !(s.search_match_bg is Rgb) && !(s.current_search_fg is Rgb) && !(s.current_search_bg is Rgb) && !(s.border_fg is Rgb) && !(s.status_bar_fg is Rgb) && !(s.status_bar_bg matches Some(c) && c is Rgb)) ==> !s.spec_uses_rgb(),
{
}

/// Lower-casing changes exactly the ASCII capitals, each into its small
/// letter, and never yields a capital.
pub proof fn lemma_ascii_lower(c: char)
    ensures
        'A' <= c <= 'Z' ==> spec_ascii_lower(c) as u32 == c as u32 + 32,
        !('A' <= c <= 'Z') ==> spec_ascii_lower(c) == c,
        !('A' <= spec_ascii_lower(c) <= 'Z'),
{
}

/// The lookup key of one character: nothing for a space, hyphen or
/// underscore, else the character lower-cased.
pub proof fn lemma_normalize_char(c: char)
    ensures
        c == ' ' || c == '-' || c == '_' ==> spec_normalize(seq![c]) == Seq::<char>::empty(),
        !(c == ' ' || c == '-' || c == '_') ==> spec_normalize(seq![c]) == seq![spec_ascii_lower(c)],
        is_name_separator(c) <==> (c == ' ' || c == '-' || c == '_'),
{
    assert(seq![c].drop_last() =~= Seq::<char>::empty());
    assert(seq![c].last() == c);
    assert(spec_normalize(Seq::<char>::empty()) =~= Seq::<char>::empty());
    assert(Seq::<char>::empty().push(spec_ascii_lower(c)) =~= seq![spec_ascii_lower(c)]);
}

/// The lookup key of a name is made character by character: the key of two
/// pieces joined is the two keys joined.
pub proof fn lemma_normalize_concat(a: Seq<char>, b: Seq<char>)
    ensures
        spec_normalize(a + b) == spec_normalize(a) + spec_normalize(b),
    decreases b.len(),
{
    if b.len() == 0 {
        assert(a + b =~= a);
        assert(spec_normalize(a) + spec_normalize(b) =~= spec_normalize(a));
    } else {
        lemma_normalize_concat(a, b.drop_last());
        assert((a + b).drop_last() =~= a + b.drop_last());
        assert((a + b).last() == b.last());
        let ka = spec_normalize(a);
        let kb = spec_normalize(b.drop_last());
        if !is_name_separator(b.last()) {
            assert(ka + kb.push(spec_ascii_lower(b.last())) =~= (ka + kb).push(spec_ascii_lower(b.last())));
        }
    }
}

/// Separators anywhere in a name, and the ASCII case of its letters, do not
/// change which theme it names.
pub proof fn lemma_names_match_ignores_separators_and_case(a: Seq<char>, b: Seq<char>, c: char)
    ensures
        is_name_separator(c) ==> names_match(a + seq![c] + b, a + b),
        names_match(a + seq![c] + b, a + seq![spec_ascii_lower(c)] + b),
{
    lemma_normalize_concat(a + seq![c], b);
    lemma_normalize_concat(a, seq![c]);
    lemma_normalize_concat(a + seq![spec_ascii_lower(c)], b);
    lemma_normalize_concat(a, seq![spec_ascii_lower(c)]);
    lemma_normalize_concat(a, b);
    lemma_normalize_char(c);
    lemma_normalize_char(spec_ascii_lower(c));
    lemma_ascii_lower(c);
    lemma_ascii_lower(spec_ascii_lower(c));
    if is_name_separator(c) {
        assert(spec_normalize(a) + Seq::<char>::empty() =~= spec_normalize(a));
    }
}

/// Equality up to ASCII case is reflexive and symmetric, and ignores the case
/// of ASCII letters only.
pub proof fn lemma_eq_ignore_ascii_case(a: Seq<char>, b: Seq<char>)
    ensures
        spec_eq_ignore_ascii_case(a, a),
        spec_eq_ignore_ascii_case(a, b) ==> spec_eq_ignore_ascii_case(b, a),
        spec_eq_ignore_ascii_case(a, b) ==> a.len() == b.len(),
        spec_eq_ignore_ascii_case(a, b) ==> forall|i: int|
            0 <= i < a.len() ==> #[trigger] a[i] == b[i] || spec_ascii_lower(a[i]) == spec_ascii_lower(b[i]),
        spec_eq_ignore_ascii_case(a, a.map_values(|c: char| spec_ascii_lower(c))),
{
    let l = a.map_values(|c: char| spec_ascii_lower(c));
    assert forall|i: int| 0 <= i < a.len() implies spec_ascii_lower(#[trigger] a[i]) == spec_ascii_lower(l[i]) by {
        lemma_ascii_lower(a[i]);
        lemma_ascii_lower(spec_ascii_lower(a[i]));
    }
}

/// `part` appears somewhere in `whole`.
pub open spec fn occurs_in(part: Seq<char>, whole: Seq<char>) -> bool {
    exists|k: int| 0 <= k && k + part.len() <= whole.len() && #[trigger] whole.subrange(k, k + part.len()) == part
}

/// A piece of text placed between two others appears in the result.
pub proof fn lemma_occurs_between(before: Seq<char>, part: Seq<char>, after: Seq<char>)
    ensures
        occurs_in(part, before + part + after),
{
    let w = before + part + after;
    assert(w.subrange(before.len() as int, (before.len() + part.len()) as int) =~= part);
}

/// Each error message names what went wrong: an unknown theme's message
/// carries the name asked for and the list of available themes, a failed
/// `inherits` carries the parent's name.
pub proof fn lemma_error_messages_name_the_problem(name: Seq<char>, available: Seq<char>)
    ensures
        occurs_in(name, error_message(ThemeErrorView::UnknownTheme { name, available })),
        occurs_in(available, error_message(ThemeErrorView::UnknownTheme { name, available })),
        occurs_in(name, error_message(ThemeErrorView::InheritedThemeNotFound { name })),
        occurs_in("not found"@, error_message(ThemeErrorView::InheritedThemeNotFound { name })),
        occurs_in(name, fallback_warning(name)),
{
    lemma_occurs_between("Unknown theme '"@, name, "'. Available themes: "@ + available);
    assert("Unknown theme '"@ + name + ("'. Available themes: "@ + available) =~= unknown_theme_message(name, available));
    lemma_occurs_between("Unknown theme '"@ + name + "'. Available themes: "@, available, Seq::<char>::empty());
    assert("Unknown theme '"@ + name + "'. Available themes: "@ + available + Seq::<char>::empty() =~= unknown_theme_message(name, available));
    let tail = "' referenced in 'inherits' not found. If it's a custom theme, make sure it appears earlier in [[theme.custom]]."@;
    lemma_occurs_between("Theme '"@, name, tail);
    reveal_strlit("' referenced in 'inherits' not found. If it's a custom theme, make sure it appears earlier in [[theme.custom]].");
    reveal_strlit("not found");
    let m = inherited_not_found_message(name);
    let k: int = ("Theme '"@.len() + name.len() + 27) as int;
    reveal_strlit("Theme '");
    assert(m.subrange(k, k + 9) =~= "not found"@);
    lemma_occurs_between("theme '"@, name, "' not found, falling back to 'Default'"@);
}

/// The truecolor warnings name the theme, and the `COLORTERM` value when one
/// is set.
pub proof fn lemma_truecolor_warnings_name_theme_and_value(name: Seq<char>, value: Seq<char>)
    ensures
        occurs_in(name, colorterm_unset_warning(name)),
        occurs_in(name, colorterm_mismatch_warning(name, value)),
        occurs_in(value, colorterm_mismatch_warning(name, value)),
{
    lemma_occurs_between("Theme '"@, name,
        "' uses RGB colors, but COLORTERM is not set. Colors may not display correctly."@);
    let tail = "' (expected 'truecolor' or '24bit'). Colors may not display correctly."@;
    lemma_occurs_between("Theme '"@, name, "' uses RGB colors, but COLORTERM is '"@ + value + tail);
    assert("Theme '"@ + name + ("' uses RGB colors, but COLORTERM is '"@ + value + tail) =~= colorterm_mismatch_warning(name, value));
    lemma_occurs_between("Theme '"@ + name + "' uses RGB colors, but COLORTERM is '"@, value, tail);
}

} // verus!
