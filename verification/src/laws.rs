use vstd::prelude::*;

use vstd::arithmetic::div_mod::{lemma_add_mod_noop_right, lemma_mod_add_multiples_vanish, lemma_small_mod};

use crate::config::{CustomTheme, ThemeConfig};
use crate::properties::{lemma_error_messages_name_the_problem, lemma_occurs_between, occurs_in};
use crate::names::{names_match, spec_eq_ignore_ascii_case, spec_normalize};
use crate::scheme::{spec_default_theme, ColorScheme};
use crate::theme::{
    advertises_truecolor, builtin_theme_views, colorterm_mismatch_warning, colorterm_unset_warning,
    is_first_match, join_names, lemma_first_match_unique, ThemeError, ThemeErrorView, ThemeSet, lemma_find_index_is_first_match,
    lemma_find_index_spec, next_index, spec_apply_custom_fields, spec_find_index, spec_merge_custom,
    spec_resolve_base, spec_resolve_themes, spec_truecolor_warning, ThemeView,
};

verus! {

/// What merging one custom theme does to the list: names and places of the
/// themes already there are kept, a theme not marked custom is left as it was,
/// the list grows by at most one theme and only when no theme had a matching
/// name, and the merged theme can be looked up by its own name afterwards, as
/// a custom theme.
pub proof fn lemma_merge_shape(themes: Seq<ThemeView>, c: CustomTheme)
    ensures
        spec_merge_custom(themes, c) matches Ok(merged) ==> {
            &&& merged.len() >= themes.len()
            &&& merged.len() <= themes.len() + 1
            &&& forall|i: int| 0 <= i < themes.len() ==> (#[trigger] merged[i]).name == themes[i].name
            &&& forall|i: int| 0 <= i < themes.len() ==> !(#[trigger] merged[i]).custom ==> merged[i] == themes[i]
            &&& forall|i: int| themes.len() <= i < merged.len() ==> (#[trigger] merged[i]).custom && merged[i].name == c.name@
            &&& spec_find_index(merged, c.name@) matches Some(k) && merged[k].custom
            &&& (merged.len() > themes.len() ==> spec_find_index(themes, c.name@) is None)
        },
{
    if let Ok(base) = spec_resolve_base(themes, c) {
        lemma_find_index_spec(themes, c.name@);
        let merged = spec_merge_custom(themes, c)->Ok_0;
        match spec_find_index(themes, c.name@) {
            Some(k) => {
                assert forall|j: int| 0 <= j < merged.len() implies #[trigger] merged[j].name == themes[j].name by {}
                assert(is_first_match(merged, c.name@, k));
                lemma_find_index_is_first_match(merged, c.name@, k);
            },
            None => {
                let k = themes.len() as int;
                assert(merged[k].name == c.name@);
                assert(is_first_match(merged, c.name@, k)) by {
                    assert forall|j: int| 0 <= j < k implies !names_match(#[trigger] merged[j].name, c.name@) by {
                        assert(merged[j] == themes[j]);
                    }
                }
                lemma_find_index_is_first_match(merged, c.name@, k);
            },
        }
    }
}

/// Custom themes replace built-ins in place or come after them: a successful
/// resolution starts with the built-ins, by name and in cycle order, and the
/// only themes not marked custom are built-ins, unchanged.
pub proof fn lemma_resolve_themes_keeps_builtins(customs: Seq<CustomTheme>)
    ensures
        spec_resolve_themes(customs) matches Ok(themes) ==> {
            &&& themes.len() >= builtin_theme_views().len()
            &&& forall|i: int| 0 <= i < builtin_theme_views().len() ==> (#[trigger] themes[i]).name
                == builtin_theme_views()[i].name
            &&& forall|i: int| 0 <= i < themes.len() && !(#[trigger] themes[i]).custom ==> i < builtin_theme_views().len()
                && themes[i] == builtin_theme_views()[i]
        },
    decreases customs.len(),
{
    if customs.len() > 0 {
        lemma_resolve_themes_keeps_builtins(customs.drop_last());
        if let Ok(prev) = spec_resolve_themes(customs.drop_last()) {
            lemma_merge_shape(prev, customs.last());
        }
    }
}

/// Every theme after the built-ins carries the name of a custom theme of the
/// configuration.
pub proof fn lemma_resolved_names_come_from_config(customs: Seq<CustomTheme>)
    ensures
        spec_resolve_themes(customs) matches Ok(themes) ==> forall|i: int|
            builtin_theme_views().len() <= i < themes.len() ==> exists|j: int|
                0 <= j < customs.len() && (#[trigger] themes[i]).name == (#[trigger] customs[j]).name@,
    decreases customs.len(),
{
    if customs.len() > 0 {
        let prefix = customs.drop_last();
        lemma_resolved_names_come_from_config(prefix);
        lemma_resolve_themes_keeps_builtins(prefix);
        if let Ok(prev) = spec_resolve_themes(prefix) {
            lemma_merge_shape(prev, customs.last());
            if let Ok(themes) = spec_resolve_themes(customs) {
                assert forall|i: int| builtin_theme_views().len() <= i < themes.len() implies exists|j: int|
                    0 <= j < customs.len() && (#[trigger] themes[i]).name == (#[trigger] customs[j]).name@ by {
                    if i < prev.len() {
                        let j = choose|j: int| 0 <= j < prefix.len() && prev[i].name == (#[trigger] prefix[j]).name@;
                        assert(customs[j] == prefix[j]);
                    } else {
                        assert(themes[i].name == customs[customs.len() - 1].name@);
                    }
                }
            }
        }
    }
}

/// A successful resolution of all custom themes resolved every prefix of them.
pub proof fn lemma_resolve_prefix_ok(customs: Seq<CustomTheme>, k: int)
    requires
        spec_resolve_themes(customs) is Ok,
        0 <= k <= customs.len(),
    ensures
        spec_resolve_themes(customs.take(k)) is Ok,
    decreases customs.len(),
{
    if k == customs.len() {
        assert(customs.take(k) =~= customs);
    } else {
        assert(customs.drop_last().take(k) =~= customs.take(k));
        lemma_resolve_prefix_ok(customs.drop_last(), k);
    }
}

/// A theme can only inherit from one defined before it: when resolution
/// succeeds, every `inherits` names a built-in theme or a custom theme that
/// comes earlier in the configuration. Circular `inherits` chains therefore
/// cannot be resolved.
pub proof fn lemma_inherits_only_earlier(customs: Seq<CustomTheme>, k: int)
    requires
        spec_resolve_themes(customs) is Ok,
        0 <= k < customs.len(),
        customs[k].inherits is Some,
    ensures
        ({
            let parent = customs[k].inherits->Some_0@;
            ||| exists|i: int| 0 <= i < builtin_theme_views().len() && names_match(
                #[trigger] builtin_theme_views()[i].name,
                parent,
            )
            ||| exists|j: int| 0 <= j < k && names_match((#[trigger] customs[j]).name@, parent)
        }),
{
    let parent = customs[k].inherits->Some_0@;
    lemma_resolve_prefix_ok(customs, k + 1);
    let upto = customs.take(k + 1);
    let before = customs.take(k);
    assert(upto.drop_last() =~= before);
    assert(upto.last() == customs[k]);
    lemma_resolve_themes_keeps_builtins(before);
    lemma_resolved_names_come_from_config(before);
    let prev = spec_resolve_themes(before)->Ok_0;
    lemma_find_index_spec(prev, parent);
    let i = spec_find_index(prev, parent)->Some_0;
    assert(names_match(prev[i].name, parent));
    if i < builtin_theme_views().len() {
        assert(names_match(builtin_theme_views()[i].name, parent));
    } else {
        let j = choose|j: int| 0 <= j < before.len() && prev[i].name == (#[trigger] before[j]).name@;
        assert(before[j] == customs[j]);
        assert(names_match(customs[j].name@, parent));
    }
}

/// Every custom theme of the configuration can be looked up by its name after
/// resolution, and the theme found is marked custom.
pub proof fn lemma_custom_themes_are_found(customs: Seq<CustomTheme>, k: int)
    requires
        0 <= k < customs.len(),
    ensures
        spec_resolve_themes(customs) matches Ok(themes) ==> spec_find_index(themes, customs[k].name@) matches Some(i)
            && themes[i].custom,
    decreases customs.len(),
{
    let prefix = customs.drop_last();
    if let Ok(prev) = spec_resolve_themes(prefix) {
        lemma_merge_shape(prev, customs.last());
        if let Ok(themes) = spec_resolve_themes(customs) {
            if k < customs.len() - 1 {
                lemma_custom_themes_are_found(prefix, k);
                assert(prefix[k] == customs[k]);
                let name = customs[k].name@;
                lemma_find_index_spec(prev, name);
                let i = spec_find_index(prev, name)->Some_0;
                assert(is_first_match(themes, name, i)) by {
                    assert forall|j: int| 0 <= j < i implies !names_match(#[trigger] themes[j].name, name) by {
                        assert(themes[j].name == prev[j].name);
                    }
                    assert(themes[i].name == prev[i].name);
                }
                lemma_find_index_is_first_match(themes, name, i);
            }
        }
    }
}

/// No two themes in the list share a lookup key.
pub open spec fn names_distinct(themes: Seq<ThemeView>) -> bool {
    forall|i: int, j: int|
        0 <= i < j < themes.len() ==> !names_match(#[trigger] themes[i].name, #[trigger] themes[j].name)
}

/// The lookup keys of the built-in theme names.
proof fn lemma_builtin_keys()
    ensures
        spec_normalize("Default"@) == seq!['d', 'e', 'f', 'a', 'u', 'l', 't'],
        spec_normalize("Dracula"@) == seq!['d', 'r', 'a', 'c', 'u', 'l', 'a'],
        spec_normalize("Solarized Dark"@) == seq!['s', 'o', 'l', 'a', 'r', 'i', 'z', 'e', 'd', 'd', 'a', 'r', 'k'],
        spec_normalize("Solarized Light"@) == seq!['s', 'o', 'l', 'a', 'r', 'i', 'z', 'e', 'd', 'l', 'i', 'g', 'h', 't'],
        spec_normalize("GitHub Dark"@) == seq!['g', 'i', 't', 'h', 'u', 'b', 'd', 'a', 'r', 'k'],
        spec_normalize("Nord"@) == seq!['n', 'o', 'r', 'd'],
{
    reveal_strlit("Default");
    reveal_strlit("Dracula");
    reveal_strlit("Solarized Dark");
    reveal_strlit("Solarized Light");
    reveal_strlit("GitHub Dark");
    reveal_strlit("Nord");
    reveal_with_fuel(spec_normalize, 16);
    assert(spec_normalize("Default"@) =~= seq!['d', 'e', 'f', 'a', 'u', 'l', 't']);
    assert(spec_normalize("Dracula"@) =~= seq!['d', 'r', 'a', 'c', 'u', 'l', 'a']);
    assert(spec_normalize("Solarized Dark"@) =~= seq!['s', 'o', 'l', 'a', 'r', 'i', 'z', 'e', 'd', 'd', 'a', 'r', 'k']);
    assert(spec_normalize("Solarized Light"@) =~= seq!['s', 'o', 'l', 'a', 'r', 'i', 'z', 'e', 'd', 'l', 'i', 'g', 'h', 't']);
    assert(spec_normalize("GitHub Dark"@) =~= seq!['g', 'i', 't', 'h', 'u', 'b', 'd', 'a', 'r', 'k']);
    assert(spec_normalize("Nord"@) =~= seq!['n', 'o', 'r', 'd']);
}

/// The built-in themes have pairwise different lookup keys.
proof fn lemma_builtin_names_distinct()
    ensures
        names_distinct(builtin_theme_views()),
{
    lemma_builtin_keys();
    let b = builtin_theme_views();
    assert forall|i: int, j: int| 0 <= i < j < b.len() implies !names_match(#[trigger] b[i].name, #[trigger] b[j].name) by {
        let ki = spec_normalize(b[i].name);
        let kj = spec_normalize(b[j].name);
        if ki.len() == kj.len() {
            assert(ki[1] != kj[1]);
        }
    }
}

/// Lookups by name are never ambiguous: after a successful resolution no two
/// themes share a lookup key, since a custom theme whose name matches an
/// existing one replaces it rather than being added.
pub proof fn lemma_resolved_names_distinct(customs: Seq<CustomTheme>)
    ensures
        spec_resolve_themes(customs) matches Ok(themes) ==> names_distinct(themes),
    decreases customs.len(),
{
    if customs.len() == 0 {
        lemma_builtin_names_distinct();
    } else {
        let prefix = customs.drop_last();
        lemma_resolved_names_distinct(prefix);
        if let Ok(prev) = spec_resolve_themes(prefix) {
            let c = customs.last();
            lemma_merge_shape(prev, c);
            lemma_find_index_spec(prev, c.name@);
            if let Ok(themes) = spec_resolve_themes(customs) {
                assert forall|i: int, j: int| 0 <= i < j < themes.len() implies !names_match(
                    #[trigger] themes[i].name,
                    #[trigger] themes[j].name,
                ) by {
                    if j < prev.len() {
                        assert(!names_match(prev[i].name, prev[j].name));
                    } else {
                        assert(themes[j].name == c.name@);
                        assert(!names_match(prev[i].name, c.name@));
                    }
                }
            }
        }
    }
}

/// The position reached from `i` after `n` calls of `cycle` in a set of
/// `len` themes.
pub open spec fn cycled(i: int, len: int, n: nat) -> int
    decreases n,
{
    if n == 0 {
        i
    } else {
        next_index(cycled(i, len, (n - 1) as nat), len)
    }
}

/// Theme `k` becomes active within fewer than `len` calls of `cycle` from `i`.
pub open spec fn reached_within(i: int, len: int, k: int) -> bool {
    exists|n: nat| n < len && #[trigger] cycled(i, len, n) == k
}

/// After `n` calls of `cycle`, the active theme is `n` places further on,
/// counting round the end of the list.
pub proof fn lemma_cycle_position(i: int, len: int, n: nat)
    requires
        0 <= i < len,
    ensures
        cycled(i, len, n) == (i + n) % len,
    decreases n,
{
    if n > 0 {
        lemma_cycle_position(i, len, (n - 1) as nat);
        lemma_add_mod_noop_right(1, i + n - 1, len);
        assert(cycled(i, len, n) == (cycled(i, len, (n - 1) as nat) + 1) % len);
    } else {
        lemma_small_mod(i as nat, len as nat);
    }
}

/// Cycling visits every theme and wraps: starting anywhere, `len` calls of
/// `cycle` come back to the start, and every theme is active after fewer than
/// `len` calls.
pub proof fn lemma_cycle_visits_every_theme_and_wraps(i: int, len: int)
    requires
        0 <= i < len,
    ensures
        cycled(i, len, len as nat) == i,
        forall|k: int| 0 <= k < len ==> #[trigger] reached_within(i, len, k),
{
    lemma_cycle_position(i, len, len as nat);
    lemma_mod_add_multiples_vanish(i, len);
    lemma_small_mod(i as nat, len as nat);
    assert forall|k: int| 0 <= k < len implies #[trigger] reached_within(i, len, k) by {
        let n: nat = if k >= i { (k - i) as nat } else { (k - i + len) as nat };
        lemma_cycle_position(i, len, n);
        if k >= i {
            lemma_small_mod(k as nat, len as nat);
        } else {
            lemma_mod_add_multiples_vanish(k, len);
            lemma_small_mod(k as nat, len as nat);
        }
        assert(cycled(i, len, n) == k);
    }
}

/// A field given by name always wins over the aliases, and the aliases set
/// exactly the uniform elements that are not given by name: `foreground` the
/// cell-type, header, border and status-bar text, `background` the header,
/// alternating-row and status-bar backgrounds.
pub proof fn lemma_explicit_fields_win_and_aliases_fill_uniform_elements(base: ColorScheme, c: CustomTheme)
    ensures
        c.string_fg matches Some(x) ==> spec_apply_custom_fields(base, c).string_fg == x,
        c.number_fg matches Some(x) ==> spec_apply_custom_fields(base, c).number_fg == x,
        c.bool_fg matches Some(x) ==> spec_apply_custom_fields(base, c).bool_fg == x,
        c.datetime_fg matches Some(x) ==> spec_apply_custom_fields(base, c).datetime_fg == x,
        c.error_fg matches Some(x) ==> spec_apply_custom_fields(base, c).error_fg == x,
        c.empty_fg matches Some(x) ==> spec_apply_custom_fields(base, c).empty_fg == x,
        c.header_fg matches Some(x) ==> spec_apply_custom_fields(base, c).header_fg == x,
        c.header_bg matches Some(x) ==> spec_apply_custom_fields(base, c).header_bg == Some(x),
        c.current_cell_fg matches Some(x) ==> spec_apply_custom_fields(base, c).current_cell_fg == x,
        c.current_cell_bg matches Some(x) ==> spec_apply_custom_fields(base, c).current_cell_bg == x,
        c.current_row_bg matches Some(x) ==> spec_apply_custom_fields(base, c).current_row_bg == x,
        c.current_col_fg matches Some(x) ==> spec_apply_custom_fields(base, c).current_col_fg == x,
        c.alternating_row_bg matches Some(x) ==> spec_apply_custom_fields(base, c).alternating_row_bg == Some(x),
        c.search_match_fg matches Some(x) ==> spec_apply_custom_fields(base, c).search_match_fg == x,
        c.search_match_bg matches Some(x) ==> spec_apply_custom_fields(base, c).search_match_bg == x,
        c.current_search_fg matches Some(x) ==> spec_apply_custom_fields(base, c).current_search_fg == x,
        c.current_search_bg matches Some(x) ==> spec_apply_custom_fields(base, c).current_search_bg == x,
        c.border_fg matches Some(x) ==> spec_apply_custom_fields(base, c).border_fg == x,
        c.status_bar_fg matches Some(x) ==> spec_apply_custom_fields(base, c).status_bar_fg == x,
        c.status_bar_bg matches Some(x) ==> spec_apply_custom_fields(base, c).status_bar_bg == Some(x),
        c.foreground matches Some(x) ==> (c.string_fg is None ==> spec_apply_custom_fields(base, c).string_fg == x),
        c.foreground matches Some(x) ==> (c.number_fg is None ==> spec_apply_custom_fields(base, c).number_fg == x),
        c.foreground matches Some(x) ==> (c.bool_fg is None ==> spec_apply_custom_fields(base, c).bool_fg == x),
        c.foreground matches Some(x) ==> (c.datetime_fg is None ==> spec_apply_custom_fields(base, c).datetime_fg == x),
        c.foreground matches Some(x) ==> (c.error_fg is None ==> spec_apply_custom_fields(base, c).error_fg == x),
        c.foreground matches Some(x) ==> (c.empty_fg is None ==> spec_apply_custom_fields(base, c).empty_fg == x),
        c.foreground matches Some(x) ==> (c.header_fg is None ==> spec_apply_custom_fields(base, c).header_fg == x),
        c.foreground matches Some(x) ==> (c.border_fg is None ==> spec_apply_custom_fields(base, c).border_fg == x),
        c.foreground matches Some(x) ==> (c.status_bar_fg is None ==> spec_apply_custom_fields(base, c).status_bar_fg == x),
        c.background matches Some(x) ==> (c.header_bg is None ==> spec_apply_custom_fields(base, c).header_bg == Some(x)),
        c.background matches Some(x) ==> (c.alternating_row_bg is None ==> spec_apply_custom_fields(base, c).alternating_row_bg == Some(x)),
        c.background matches Some(x) ==> (c.status_bar_bg is None ==> spec_apply_custom_fields(base, c).status_bar_bg == Some(x)),
{
}

/// The aliases never flatten the elements that provide contrast: the cursor
/// cell, the current row and column and the search highlights take only their
/// own fields, so two custom themes that agree on those fields give them the
/// same colours whatever their `foreground` and `background` say, and a theme
/// that does not name them keeps the base scheme's.
pub proof fn lemma_aliases_never_flatten_contrast(base: ColorScheme, a: CustomTheme, b: CustomTheme)
    requires
        a.current_cell_fg == b.current_cell_fg,
        a.current_cell_bg == b.current_cell_bg,
        a.current_row_bg == b.current_row_bg,
        a.current_col_fg == b.current_col_fg,
        a.search_match_fg == b.search_match_fg,
        a.search_match_bg == b.search_match_bg,
        a.current_search_fg == b.current_search_fg,
        a.current_search_bg == b.current_search_bg,
    ensures
        spec_apply_custom_fields(base, a).current_cell_fg == spec_apply_custom_fields(base, b).current_cell_fg,
        spec_apply_custom_fields(base, a).current_cell_bg == spec_apply_custom_fields(base, b).current_cell_bg,
        spec_apply_custom_fields(base, a).current_row_bg == spec_apply_custom_fields(base, b).current_row_bg,
        spec_apply_custom_fields(base, a).current_col_fg == spec_apply_custom_fields(base, b).current_col_fg,
        spec_apply_custom_fields(base, a).search_match_fg == spec_apply_custom_fields(base, b).search_match_fg,
        spec_apply_custom_fields(base, a).search_match_bg == spec_apply_custom_fields(base, b).search_match_bg,
        spec_apply_custom_fields(base, a).current_search_fg == spec_apply_custom_fields(base, b).current_search_fg,
        spec_apply_custom_fields(base, a).current_search_bg == spec_apply_custom_fields(base, b).current_search_bg,
        a.current_cell_fg is None ==> spec_apply_custom_fields(base, a).current_cell_fg == base.current_cell_fg,
        a.current_cell_bg is None ==> spec_apply_custom_fields(base, a).current_cell_bg == base.current_cell_bg,
        a.current_row_bg is None ==> spec_apply_custom_fields(base, a).current_row_bg == base.current_row_bg,
        a.current_col_fg is None ==> spec_apply_custom_fields(base, a).current_col_fg == base.current_col_fg,
        a.search_match_fg is None ==> spec_apply_custom_fields(base, a).search_match_fg == base.search_match_fg,
        a.search_match_bg is None ==> spec_apply_custom_fields(base, a).search_match_bg == base.search_match_bg,
        a.current_search_fg is None ==> spec_apply_custom_fields(base, a).current_search_fg == base.current_search_fg,
        a.current_search_bg is None ==> spec_apply_custom_fields(base, a).current_search_bg == base.current_search_bg,
{
}

/// The truecolor warning only ever fires for custom themes that use RGB
/// colours: a built-in left untouched, or a theme without RGB colours, is never
/// warned about, whatever `COLORTERM` says.
pub proof fn lemma_truecolor_warning_only_for_custom_rgb(theme: ThemeView, colorterm: Option<Seq<char>>)
    ensures
        spec_truecolor_warning(theme, colorterm) is Some ==> theme.custom && theme.colors.spec_uses_rgb(),
        colorterm matches Some(v) && advertises_truecolor(v) ==> spec_truecolor_warning(theme, colorterm) is None,
{
}

/// An element not given by name keeps the base scheme's colour unless its own
/// alias is given: the uniform text elements follow only `foreground`, the
/// uniform backgrounds only `background`. In particular `background` never
/// changes a text colour and `foreground` never changes a background.
pub proof fn lemma_unset_fields_keep_base(base: ColorScheme, c: CustomTheme)
    ensures
        c.string_fg is None && c.foreground is None ==> spec_apply_custom_fields(base, c).string_fg == base.string_fg,
        c.number_fg is None && c.foreground is None ==> spec_apply_custom_fields(base, c).number_fg == base.number_fg,
        c.bool_fg is None && c.foreground is None ==> spec_apply_custom_fields(base, c).bool_fg == base.bool_fg,
        c.datetime_fg is None && c.foreground is None ==> spec_apply_custom_fields(base, c).datetime_fg == base.datetime_fg,
        c.error_fg is None && c.foreground is None ==> spec_apply_custom_fields(base, c).error_fg == base.error_fg,
        c.empty_fg is None && c.foreground is None ==> spec_apply_custom_fields(base, c).empty_fg == base.empty_fg,
        c.header_fg is None && c.foreground is None ==> spec_apply_custom_fields(base, c).header_fg == base.header_fg,
        c.border_fg is None && c.foreground is None ==> spec_apply_custom_fields(base, c).border_fg == base.border_fg,
        c.status_bar_fg is None && c.foreground is None ==> spec_apply_custom_fields(base, c).status_bar_fg == base.status_bar_fg,
        c.header_bg is None && c.background is None ==> spec_apply_custom_fields(base, c).header_bg == base.header_bg,
        c.alternating_row_bg is None && c.background is None ==> spec_apply_custom_fields(base, c).alternating_row_bg == base.alternating_row_bg,
        c.status_bar_bg is None && c.background is None ==> spec_apply_custom_fields(base, c).status_bar_bg == base.status_bar_bg,
{
}

/// The truecolor warning fires whenever it should: for a custom theme with any
/// RGB element, unless `COLORTERM` advertises 24-bit colour (it is "truecolor"
/// or "24bit", in any ASCII case).
pub proof fn lemma_truecolor_warning_fires_for_custom_rgb(theme: ThemeView, colorterm: Option<Seq<char>>)
    ensures
        theme.custom && theme.colors.spec_uses_rgb() && colorterm is None ==> spec_truecolor_warning(theme, colorterm)
            == Some(colorterm_unset_warning(theme.name)),
        theme.custom && theme.colors.spec_uses_rgb() ==> (colorterm matches Some(v) ==> (!advertises_truecolor(v)
            ==> spec_truecolor_warning(theme, colorterm) == Some(colorterm_mismatch_warning(theme.name, v)))),
        forall|v: Seq<char>| #[trigger] advertises_truecolor(v) <==> (spec_eq_ignore_ascii_case(v, "truecolor"@)
            || spec_eq_ignore_ascii_case(v, "24bit"@)),
{
}

/// Every theme's name appears in the list of names.
pub proof fn lemma_join_names_lists_every_theme(themes: Seq<ThemeView>, i: int)
    requires
        0 <= i < themes.len(),
    ensures
        occurs_in(themes[i].name, join_names(themes)),
    decreases themes.len(),
{
    let n = themes[i].name;
    if themes.len() == 1 {
        assert(join_names(themes).subrange(0, 0 + n.len() as int) =~= n);
        assert(occurs_in(n, join_names(themes)));
    } else {
        let prev = join_names(themes.drop_last());
        let sep_last = ", "@ + themes.last().name;
        assert(join_names(themes) =~= prev + sep_last);
        if i == themes.len() - 1 {
            lemma_occurs_between(prev + ", "@, n, Seq::<char>::empty());
            assert(prev + ", "@ + n + Seq::<char>::empty() =~= join_names(themes));
            assert(occurs_in(n, join_names(themes)));
        } else {
            assert(themes.drop_last()[i] == themes[i]);
            lemma_join_names_lists_every_theme(themes.drop_last(), i);
            let k = choose|k: int| 0 <= k && k + n.len() <= prev.len() && #[trigger] prev.subrange(k, k + n.len()) == n;
            assert((prev + sep_last).subrange(k, k + n.len()) =~= prev.subrange(k, k + n.len()));
            assert(occurs_in(n, join_names(themes)));
        }
    }
}

/// `resolve` reports the error of custom themes that do not resolve.
pub proof fn lemma_resolve_reports_config_errors(
    config: ThemeConfig,
    override_name: Option<&str>,
    r: Result<(ThemeSet, Vec<String>), ThemeError>,
)
    requires
        ThemeSet::resolve_outcome(config, override_name, r),
    ensures
        spec_resolve_themes(config.custom@) matches Err(p) ==> (r matches Err(e) && e@
            == ThemeErrorView::InheritedThemeNotFound { name: p }),
{
}

/// `resolve` selects, with no warning, the first theme of the whole resolved
/// list (built-in or custom) whose name matches the override if one is given,
/// else the configured default.
pub proof fn lemma_resolve_selects_the_named_theme(
    config: ThemeConfig,
    override_name: Option<&str>,
    r: Result<(ThemeSet, Vec<String>), ThemeError>,
    i: int,
)
    requires
        ThemeSet::resolve_outcome(config, override_name, r),
        spec_resolve_themes(config.custom@) is Ok,
        0 <= i < spec_resolve_themes(config.custom@)->Ok_0.len(),
        names_match(
            spec_resolve_themes(config.custom@)->Ok_0[i].name,
            match override_name {
                Some(o) => o@,
                None => config.default@,
            },
        ),
    ensures
        ({
            let themes = spec_resolve_themes(config.custom@)->Ok_0;
            let wanted = match override_name {
                Some(o) => o@,
                None => config.default@,
            };
            r matches Ok((set, w)) && set.spec_themes() == themes && w@.len() == 0 && 0 <= set.spec_current()
                <= i && names_match(themes[set.spec_current()].name, wanted) && forall|j: int|
                0 <= j < set.spec_current() ==> !names_match(#[trigger] themes[j].name, wanted)
        }),
{
    let themes = spec_resolve_themes(config.custom@)->Ok_0;
    let wanted = match override_name {
        Some(o) => o@,
        None => config.default@,
    };
    lemma_find_index_spec(themes, wanted);
    if spec_find_index(themes, wanted) is None {
        assert(!names_match(themes[i].name, wanted));
    }
    let k = spec_find_index(themes, wanted)->Some_0;
    if i < k {
        assert(!names_match(themes[i].name, wanted));
    }
}

/// An override that names no theme of the resolved list is a hard error that
/// names it and lists every theme, built-in and custom.
pub proof fn lemma_resolve_rejects_unknown_override(
    config: ThemeConfig,
    o: &str,
    r: Result<(ThemeSet, Vec<String>), ThemeError>,
)
    requires
        ThemeSet::resolve_outcome(config, Some(o), r),
        spec_resolve_themes(config.custom@) is Ok,
        forall|i: int|
            0 <= i < spec_resolve_themes(config.custom@)->Ok_0.len() ==> !names_match(
                #[trigger] spec_resolve_themes(config.custom@)->Ok_0[i].name,
                o@,
            ),
    ensures
        ({
            let themes = spec_resolve_themes(config.custom@)->Ok_0;
            r matches Err(e) && e@ matches ThemeErrorView::UnknownTheme { name, available } && name == o@
                && forall|i: int| 0 <= i < themes.len() ==> occurs_in(#[trigger] themes[i].name, available)
        }),
{
    let themes = spec_resolve_themes(config.custom@)->Ok_0;
    lemma_find_index_spec(themes, o@);
    if let Some(k) = spec_find_index(themes, o@) {
        assert(names_match(themes[k].name, o@));
    }
    assert forall|i: int| 0 <= i < themes.len() implies occurs_in(#[trigger] themes[i].name, join_names(themes)) by {
        lemma_join_names_lists_every_theme(themes, i);
    }
}

/// A configured default that names no theme falls back to the theme named
/// "Default", with one warning that names the missing theme.
pub proof fn lemma_resolve_falls_back_to_default(
    config: ThemeConfig,
    r: Result<(ThemeSet, Vec<String>), ThemeError>,
)
    requires
        ThemeSet::resolve_outcome(config, None, r),
        spec_resolve_themes(config.custom@) is Ok,
        forall|i: int|
            0 <= i < spec_resolve_themes(config.custom@)->Ok_0.len() ==> !names_match(
                #[trigger] spec_resolve_themes(config.custom@)->Ok_0[i].name,
                config.default@,
            ),
    ensures
        ({
            let themes = spec_resolve_themes(config.custom@)->Ok_0;
            r matches Ok((set, w)) && set.spec_themes() == themes && set.spec_current() == 0 && themes[0].name
                == "Default"@ && w@.len() == 1 && occurs_in(config.default@, w@[0]@)
        }),
{
    let themes = spec_resolve_themes(config.custom@)->Ok_0;
    lemma_find_index_spec(themes, config.default@);
    if let Some(k) = spec_find_index(themes, config.default@) {
        assert(names_match(themes[k].name, config.default@));
    }
    lemma_resolve_themes_keeps_builtins(config.custom@);
    assert(themes[0].name == builtin_theme_views()[0].name);
    lemma_error_messages_name_the_problem(config.default@, Seq::<char>::empty());
}

/// Merging one custom theme into a list: it fails exactly when the theme
/// `inherits` a name that no theme of the list matches, and the error carries
/// that name. Otherwise the theme found under the custom theme's name is the
/// only one that changes (it replaces the first theme of that name, else it is
/// appended), it is marked custom, and its colours are the custom theme's
/// fields applied over its base: the first theme matching `inherits`, or
/// without `inherits` the first theme of the same name, else the default
/// palette.
pub proof fn lemma_merge_applies_the_custom_theme(themes: Seq<ThemeView>, c: CustomTheme)
    ensures
        spec_merge_custom(themes, c) is Err <==> (c.inherits matches Some(p) && forall|i: int|
            0 <= i < themes.len() ==> !names_match(#[trigger] themes[i].name, p@)),
        spec_merge_custom(themes, c) matches Err(e) ==> (c.inherits matches Some(p) && p@ == e),
        spec_merge_custom(themes, c) matches Ok(m) ==> (spec_find_index(m, c.name@) matches Some(k) && {
            &&& m[k].custom
            &&& forall|i: int| 0 <= i < themes.len() && i != k ==> #[trigger] m[i] == themes[i]
            &&& spec_find_index(themes, c.name@) matches Some(j) ==> (k == j && m.len() == themes.len()
                && m[k].name == themes[j].name)
            &&& spec_find_index(themes, c.name@) is None ==> (k == themes.len() && m.len() == themes.len() + 1
                && m[k].name == c.name@)
            &&& c.inherits matches Some(p) ==> (spec_find_index(themes, p@) matches Some(b) && m[k].colors
                == spec_apply_custom_fields(themes[b].colors, c))
            &&& c.inherits is None ==> (spec_find_index(themes, c.name@) matches Some(b) ==> m[k].colors
                == spec_apply_custom_fields(themes[b].colors, c))
            &&& c.inherits is None ==> (spec_find_index(themes, c.name@) is None ==> m[k].colors
                == spec_apply_custom_fields(spec_default_theme(), c))
        }),
{
    lemma_merge_shape(themes, c);
    lemma_find_index_spec(themes, c.name@);
    if let Some(p) = c.inherits {
        lemma_find_index_spec(themes, p@);
        if let Some(b) = spec_find_index(themes, p@) {
            assert(names_match(themes[b].name, p@));
        }
    }
    if let Ok(m) = spec_merge_custom(themes, c) {
        let k = spec_find_index(m, c.name@)->Some_0;
        lemma_find_index_spec(m, c.name@);
        match spec_find_index(themes, c.name@) {
            Some(j) => {
                assert(is_first_match(m, c.name@, j)) by {
                    assert forall|x: int| 0 <= x < j implies !names_match(#[trigger] m[x].name, c.name@) by {
                        assert(m[x].name == themes[x].name);
                    }
                }
                lemma_first_match_unique(m, c.name@, j, k);
            },
            None => {
                let n = themes.len() as int;
                assert(is_first_match(m, c.name@, n)) by {
                    assert forall|x: int| 0 <= x < n implies !names_match(#[trigger] m[x].name, c.name@) by {
                        assert(m[x] == themes[x]);
                    }
                }
                lemma_first_match_unique(m, c.name@, n, k);
            },
        }
    }
}

/// Resolution starts from the built-in themes and merges the custom themes one
/// at a time, in configuration order; once one fails, the whole resolution
/// fails with its error.
pub proof fn lemma_resolve_themes_merges_in_order(customs: Seq<CustomTheme>, c: CustomTheme)
    ensures
        spec_resolve_themes(Seq::<CustomTheme>::empty()) == Ok::<Seq<ThemeView>, Seq<char>>(builtin_theme_views()),
        spec_resolve_themes(customs.push(c)) == match spec_resolve_themes(customs) {
            Err(p) => Err(p),
            Ok(t) => spec_merge_custom(t, c),
        },
{
    assert(customs.push(c).drop_last() =~= customs);
}

/// A failed resolution names the parent of some custom theme whose `inherits`
/// matches no theme defined before it, and every custom theme before that one
/// resolved.
pub proof fn lemma_resolve_error_names_a_missing_parent(customs: Seq<CustomTheme>)
    ensures
        spec_resolve_themes(customs) matches Err(p) ==> exists|k: int|
            0 <= k < customs.len() && #[trigger] parent_missing_at(customs, k, p),
    decreases customs.len(),
{
    if customs.len() > 0 {
        let prefix = customs.drop_last();
        let k = customs.len() - 1;
        assert(customs.take(k) =~= prefix);
        match spec_resolve_themes(prefix) {
            Err(p) => {
                lemma_resolve_error_names_a_missing_parent(prefix);
                let j = choose|j: int| 0 <= j < prefix.len() && #[trigger] parent_missing_at(prefix, j, p);
                assert(prefix.take(j) =~= customs.take(j));
                assert(prefix[j] == customs[j]);
                assert(parent_missing_at(customs, j, p));
            },
            Ok(t) => {
                lemma_merge_applies_the_custom_theme(t, customs.last());
                if let Err(p) = spec_resolve_themes(customs) {
                    assert(parent_missing_at(customs, k, p));
                }
            },
        }
    }
}

/// Custom theme `k` inherits from `p`, every custom theme before it resolved,
/// and no theme they resolved to matches `p`.
pub open spec fn parent_missing_at(customs: Seq<CustomTheme>, k: int, p: Seq<char>) -> bool {
    &&& customs[k].inherits matches Some(q) && q@ == p
    &&& spec_resolve_themes(customs.take(k)) matches Ok(t) && forall|i: int|
        0 <= i < t.len() ==> !names_match(#[trigger] t[i].name, p)
}

} // verus!
