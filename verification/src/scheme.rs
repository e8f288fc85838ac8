use vstd::prelude::*;

use crate::color::{opt_is_rgb, Color};

verus! {

/// The kind of value a spreadsheet cell holds, which is all that decides the
/// colour its text is drawn in.
#[derive(Clone, Copy, Debug, PartialEq, Eq, Structural)]
pub enum CellKind {
    Empty,
    String,
    Int,
    Float,
    Bool,
    Error,
    DateTime,
}

/// Colour scheme for the TUI: one colour per element that the viewer draws.
/// The three optional backgrounds leave the terminal's own background when
/// absent.
#[derive(Clone, Copy, Debug, PartialEq, Eq, Structural)]
pub struct ColorScheme {
    pub string_fg: Color,
    pub number_fg: Color,
    pub bool_fg: Color,
    pub datetime_fg: Color,
    pub error_fg: Color,
    pub empty_fg: Color,
    pub header_fg: Color,
    pub header_bg: Option<Color>,
    pub current_cell_fg: Color,
    pub current_cell_bg: Color,
    pub current_row_bg: Color,
    pub current_col_fg: Color,
    pub alternating_row_bg: Option<Color>,
    pub search_match_fg: Color,
    pub search_match_bg: Color,
    pub current_search_fg: Color,
    pub current_search_bg: Color,
    pub border_fg: Color,
    pub status_bar_fg: Color,
    pub status_bar_bg: Option<Color>,
}

/// The palette of the built-in `default_theme` scheme.
pub open spec fn spec_default_theme() -> ColorScheme {
    ColorScheme {
        string_fg: Color::White,
        number_fg: Color::Cyan,
        bool_fg: Color::Magenta,
        datetime_fg: Color::Green,
        error_fg: Color::Red,
        empty_fg: Color::DarkGray,
        header_fg: Color::Yellow,
        header_bg: None,
        current_cell_fg: Color::White,
        current_cell_bg: Color::Blue,
        current_row_bg: Color::DarkGray,
        current_col_fg: Color::Cyan,
        alternating_row_bg: Some(Color::Rgb(25, 25, 28)),
        search_match_fg: Color::Black,
        search_match_bg: Color::LightYellow,
        current_search_fg: Color::Black,
        current_search_bg: Color::Yellow,
        border_fg: Color::White,
        status_bar_fg: Color::White,
        status_bar_bg: None,
    }
}

/// The palette of the built-in `dracula` scheme.
pub open spec fn spec_dracula() -> ColorScheme {
    ColorScheme {
        string_fg: Color::Rgb(248, 248, 242),
        number_fg: Color::Rgb(189, 147, 249),
        bool_fg: Color::Rgb(255, 121, 198),
        datetime_fg: Color::Rgb(80, 250, 123),
        error_fg: Color::Rgb(255, 85, 85),
        empty_fg: Color::Rgb(98, 114, 164),
        header_fg: Color::Rgb(139, 233, 253),
        header_bg: Some(Color::Rgb(68, 71, 90)),
        current_cell_fg: Color::Rgb(248, 248, 242),
        current_cell_bg: Color::Rgb(98, 114, 164),
        current_row_bg: Color::Rgb(68, 71, 90),
        current_col_fg: Color::Rgb(139, 233, 253),
        alternating_row_bg: Some(Color::Rgb(50, 52, 65)),
        search_match_fg: Color::Rgb(40, 42, 54),
        search_match_bg: Color::Rgb(241, 250, 140),
        current_search_fg: Color::Rgb(40, 42, 54),
        current_search_bg: Color::Rgb(255, 184, 108),
        border_fg: Color::Rgb(98, 114, 164),
        status_bar_fg: Color::Rgb(248, 248, 242),
        status_bar_bg: Some(Color::Rgb(68, 71, 90)),
    }
}

/// The palette of the built-in `solarized_dark` scheme.
pub open spec fn spec_solarized_dark() -> ColorScheme {
    ColorScheme {
        string_fg: Color::Rgb(131, 148, 150),
        number_fg: Color::Rgb(38, 139, 210),
        bool_fg: Color::Rgb(211, 54, 130),
        datetime_fg: Color::Rgb(133, 153, 0),
        error_fg: Color::Rgb(220, 50, 47),
        empty_fg: Color::Rgb(88, 110, 117),
        header_fg: Color::Rgb(181, 137, 0),
        header_bg: Some(Color::Rgb(7, 54, 66)),
        current_cell_fg: Color::Rgb(253, 246, 227),
        current_cell_bg: Color::Rgb(88, 110, 117),
        current_row_bg: Color::Rgb(7, 54, 66),
        current_col_fg: Color::Rgb(42, 161, 152),
        alternating_row_bg: Some(Color::Rgb(0, 43, 54)),
        search_match_fg: Color::Rgb(0, 43, 54),
        search_match_bg: Color::Rgb(181, 137, 0),
        current_search_fg: Color::Rgb(0, 43, 54),
        current_search_bg: Color::Rgb(203, 75, 22),
        border_fg: Color::Rgb(88, 110, 117),
        status_bar_fg: Color::Rgb(131, 148, 150),
        status_bar_bg: Some(Color::Rgb(7, 54, 66)),
    }
}

/// The palette of the built-in `solarized_light` scheme.
pub open spec fn spec_solarized_light() -> ColorScheme {
    ColorScheme {
        string_fg: Color::Rgb(101, 123, 131),
        number_fg: Color::Rgb(38, 139, 210),
        bool_fg: Color::Rgb(211, 54, 130),
        datetime_fg: Color::Rgb(133, 153, 0),
        error_fg: Color::Rgb(220, 50, 47),
        empty_fg: Color::Rgb(147, 161, 161),
        header_fg: Color::Rgb(181, 137, 0),
        header_bg: Some(Color::Rgb(238, 232, 213)),
        current_cell_fg: Color::Rgb(0, 43, 54),
        current_cell_bg: Color::Rgb(147, 161, 161),
        current_row_bg: Color::Rgb(238, 232, 213),
        current_col_fg: Color::Rgb(42, 161, 152),
        alternating_row_bg: Some(Color::Rgb(253, 246, 227)),
        search_match_fg: Color::Rgb(0, 43, 54),
        search_match_bg: Color::Rgb(181, 137, 0),
        current_search_fg: Color::Rgb(253, 246, 227),
        current_search_bg: Color::Rgb(203, 75, 22),
        border_fg: Color::Rgb(147, 161, 161),
        status_bar_fg: Color::Rgb(101, 123, 131),
        status_bar_bg: Some(Color::Rgb(238, 232, 213)),
    }
}

/// The palette of the built-in `github_dark` scheme.
pub open spec fn spec_github_dark() -> ColorScheme {
    ColorScheme {
        string_fg: Color::Rgb(201, 209, 217),
        number_fg: Color::Rgb(121, 192, 255),
        bool_fg: Color::Rgb(255, 125, 163),
        datetime_fg: Color::Rgb(127, 219, 202),
        error_fg: Color::Rgb(248, 81, 73),
        empty_fg: Color::Rgb(110, 118, 129),
        header_fg: Color::Rgb(255, 199, 119),
        header_bg: Some(Color::Rgb(33, 38, 45)),
        current_cell_fg: Color::Rgb(201, 209, 217),
        current_cell_bg: Color::Rgb(56, 139, 253),
        current_row_bg: Color::Rgb(33, 38, 45),
        current_col_fg: Color::Rgb(121, 192, 255),
        alternating_row_bg: Some(Color::Rgb(22, 27, 34)),
        search_match_fg: Color::Rgb(13, 17, 23),
        search_match_bg: Color::Rgb(187, 128, 9),
        current_search_fg: Color::Rgb(13, 17, 23),
        current_search_bg: Color::Rgb(242, 130, 33),
        border_fg: Color::Rgb(48, 54, 61),
        status_bar_fg: Color::Rgb(201, 209, 217),
        status_bar_bg: Some(Color::Rgb(33, 38, 45)),
    }
}

/// The palette of the built-in `nord` scheme.
pub open spec fn spec_nord() -> ColorScheme {
    ColorScheme {
        string_fg: Color::Rgb(216, 222, 233),
        number_fg: Color::Rgb(136, 192, 208),
        bool_fg: Color::Rgb(180, 142, 173),
        datetime_fg: Color::Rgb(163, 190, 140),
        error_fg: Color::Rgb(191, 97, 106),
        empty_fg: Color::Rgb(76, 86, 106),
        header_fg: Color::Rgb(235, 203, 139),
        header_bg: Some(Color::Rgb(59, 66, 82)),
        current_cell_fg: Color::Rgb(236, 239, 244),
        current_cell_bg: Color::Rgb(94, 129, 172),
        current_row_bg: Color::Rgb(59, 66, 82),
        current_col_fg: Color::Rgb(136, 192, 208),
        alternating_row_bg: Some(Color::Rgb(46, 52, 64)),
        search_match_fg: Color::Rgb(46, 52, 64),
        search_match_bg: Color::Rgb(235, 203, 139),
        current_search_fg: Color::Rgb(46, 52, 64),
        current_search_bg: Color::Rgb(208, 135, 112),
        border_fg: Color::Rgb(76, 86, 106),
        status_bar_fg: Color::Rgb(216, 222, 233),
        status_bar_bg: Some(Color::Rgb(59, 66, 82)),
    }
}

impl ColorScheme {
    /// Default theme: the terminal's own ANSI colours, with a faint RGB stripe on alternating rows.
    pub fn default_theme() -> (s: Self)
        ensures
            s == spec_default_theme(),
    {
        ColorScheme {
            string_fg: Color::White,
            number_fg: Color::Cyan,
            bool_fg: Color::Magenta,
            datetime_fg: Color::Green,
            error_fg: Color::Red,
            empty_fg: Color::DarkGray,
            header_fg: Color::Yellow,
            header_bg: None,
            current_cell_fg: Color::White,
            current_cell_bg: Color::Blue,
            current_row_bg: Color::DarkGray,
            current_col_fg: Color::Cyan,
            alternating_row_bg: Some(Color::Rgb(25, 25, 28)),
            search_match_fg: Color::Black,
            search_match_bg: Color::LightYellow,
            current_search_fg: Color::Black,
            current_search_bg: Color::Yellow,
            border_fg: Color::White,
            status_bar_fg: Color::White,
            status_bar_bg: None,
        }
    }

    /// Dracula theme (purple/pink aesthetic).
    pub fn dracula() -> (s: Self)
        ensures
            s == spec_dracula(),
    {
        ColorScheme {
            string_fg: Color::Rgb(248, 248, 242),
            number_fg: Color::Rgb(189, 147, 249),
            bool_fg: Color::Rgb(255, 121, 198),
            datetime_fg: Color::Rgb(80, 250, 123),
            error_fg: Color::Rgb(255, 85, 85),
            empty_fg: Color::Rgb(98, 114, 164),
            header_fg: Color::Rgb(139, 233, 253),
            header_bg: Some(Color::Rgb(68, 71, 90)),
            current_cell_fg: Color::Rgb(248, 248, 242),
            current_cell_bg: Color::Rgb(98, 114, 164),
            current_row_bg: Color::Rgb(68, 71, 90),
            current_col_fg: Color::Rgb(139, 233, 253),
            alternating_row_bg: Some(Color::Rgb(50, 52, 65)),
            search_match_fg: Color::Rgb(40, 42, 54),
            search_match_bg: Color::Rgb(241, 250, 140),
            current_search_fg: Color::Rgb(40, 42, 54),
            current_search_bg: Color::Rgb(255, 184, 108),
            border_fg: Color::Rgb(98, 114, 164),
            status_bar_fg: Color::Rgb(248, 248, 242),
            status_bar_bg: Some(Color::Rgb(68, 71, 90)),
        }
    }

    /// Solarized Dark theme.
    pub fn solarized_dark() -> (s: Self)
        ensures
            s == spec_solarized_dark(),
    {
        ColorScheme {
            string_fg: Color::Rgb(131, 148, 150),
            number_fg: Color::Rgb(38, 139, 210),
            bool_fg: Color::Rgb(211, 54, 130),
            datetime_fg: Color::Rgb(133, 153, 0),
            error_fg: Color::Rgb(220, 50, 47),
            empty_fg: Color::Rgb(88, 110, 117),
            header_fg: Color::Rgb(181, 137, 0),
            header_bg: Some(Color::Rgb(7, 54, 66)),
            current_cell_fg: Color::Rgb(253, 246, 227),
            current_cell_bg: Color::Rgb(88, 110, 117),
            current_row_bg: Color::Rgb(7, 54, 66),
            current_col_fg: Color::Rgb(42, 161, 152),
            alternating_row_bg: Some(Color::Rgb(0, 43, 54)),
            search_match_fg: Color::Rgb(0, 43, 54),
            search_match_bg: Color::Rgb(181, 137, 0),
            current_search_fg: Color::Rgb(0, 43, 54),
            current_search_bg: Color::Rgb(203, 75, 22),
            border_fg: Color::Rgb(88, 110, 117),
            status_bar_fg: Color::Rgb(131, 148, 150),
            status_bar_bg: Some(Color::Rgb(7, 54, 66)),
        }
    }

    /// Solarized Light theme.
    pub fn solarized_light() -> (s: Self)
        ensures
            s == spec_solarized_light(),
    {
        ColorScheme {
            string_fg: Color::Rgb(101, 123, 131),
            number_fg: Color::Rgb(38, 139, 210),
            bool_fg: Color::Rgb(211, 54, 130),
            datetime_fg: Color::Rgb(133, 153, 0),
            error_fg: Color::Rgb(220, 50, 47),
            empty_fg: Color::Rgb(147, 161, 161),
            header_fg: Color::Rgb(181, 137, 0),
            header_bg: Some(Color::Rgb(238, 232, 213)),
            current_cell_fg: Color::Rgb(0, 43, 54),
            current_cell_bg: Color::Rgb(147, 161, 161),
            current_row_bg: Color::Rgb(238, 232, 213),
            current_col_fg: Color::Rgb(42, 161, 152),
            alternating_row_bg: Some(Color::Rgb(253, 246, 227)),
            search_match_fg: Color::Rgb(0, 43, 54),
            search_match_bg: Color::Rgb(181, 137, 0),
            current_search_fg: Color::Rgb(253, 246, 227),
            current_search_bg: Color::Rgb(203, 75, 22),
            border_fg: Color::Rgb(147, 161, 161),
            status_bar_fg: Color::Rgb(101, 123, 131),
            status_bar_bg: Some(Color::Rgb(238, 232, 213)),
        }
    }

    /// GitHub Dark theme.
    pub fn github_dark() -> (s: Self)
        ensures
            s == spec_github_dark(),
    {
        ColorScheme {
            string_fg: Color::Rgb(201, 209, 217),
            number_fg: Color::Rgb(121, 192, 255),
            bool_fg: Color::Rgb(255, 125, 163),
            datetime_fg: Color::Rgb(127, 219, 202),
            error_fg: Color::Rgb(248, 81, 73),
            empty_fg: Color::Rgb(110, 118, 129),
            header_fg: Color::Rgb(255, 199, 119),
            header_bg: Some(Color::Rgb(33, 38, 45)),
            current_cell_fg: Color::Rgb(201, 209, 217),
            current_cell_bg: Color::Rgb(56, 139, 253),
            current_row_bg: Color::Rgb(33, 38, 45),
            current_col_fg: Color::Rgb(121, 192, 255),
            alternating_row_bg: Some(Color::Rgb(22, 27, 34)),
            search_match_fg: Color::Rgb(13, 17, 23),
            search_match_bg: Color::Rgb(187, 128, 9),
            current_search_fg: Color::Rgb(13, 17, 23),
            current_search_bg: Color::Rgb(242, 130, 33),
            border_fg: Color::Rgb(48, 54, 61),
            status_bar_fg: Color::Rgb(201, 209, 217),
            status_bar_bg: Some(Color::Rgb(33, 38, 45)),
        }
    }

    /// Nord theme (cool blue/cyan palette).
    pub fn nord() -> (s: Self)
        ensures
            s == spec_nord(),
    {
        ColorScheme {
            string_fg: Color::Rgb(216, 222, 233),
            number_fg: Color::Rgb(136, 192, 208),
            bool_fg: Color::Rgb(180, 142, 173),
            datetime_fg: Color::Rgb(163, 190, 140),
            error_fg: Color::Rgb(191, 97, 106),
            empty_fg: Color::Rgb(76, 86, 106),
            header_fg: Color::Rgb(235, 203, 139),
            header_bg: Some(Color::Rgb(59, 66, 82)),
            current_cell_fg: Color::Rgb(236, 239, 244),
            current_cell_bg: Color::Rgb(94, 129, 172),
            current_row_bg: Color::Rgb(59, 66, 82),
            current_col_fg: Color::Rgb(136, 192, 208),
            alternating_row_bg: Some(Color::Rgb(46, 52, 64)),
            search_match_fg: Color::Rgb(46, 52, 64),
            search_match_bg: Color::Rgb(235, 203, 139),
            current_search_fg: Color::Rgb(46, 52, 64),
            current_search_bg: Color::Rgb(208, 135, 112),
            border_fg: Color::Rgb(76, 86, 106),
            status_bar_fg: Color::Rgb(216, 222, 233),
            status_bar_bg: Some(Color::Rgb(59, 66, 82)),
        }
    }

    /// Whether some element of the scheme is an RGB colour, which needs
    /// 24-bit colour support from the terminal.
    pub open spec fn spec_uses_rgb(&self) -> bool {
        ||| self.string_fg.spec_is_rgb()
        ||| self.number_fg.spec_is_rgb()
        ||| self.bool_fg.spec_is_rgb()
        ||| self.datetime_fg.spec_is_rgb()
        ||| self.error_fg.spec_is_rgb()
        ||| self.empty_fg.spec_is_rgb()
        ||| self.header_fg.spec_is_rgb()
        ||| self.current_cell_fg.spec_is_rgb()
        ||| self.current_cell_bg.spec_is_rgb()
        ||| self.current_row_bg.spec_is_rgb()
        ||| self.current_col_fg.spec_is_rgb()
        ||| self.search_match_fg.spec_is_rgb()
        ||| self.search_match_bg.spec_is_rgb()
        ||| self.current_search_fg.spec_is_rgb()
        ||| self.current_search_bg.spec_is_rgb()
        ||| self.border_fg.spec_is_rgb()
        ||| self.status_bar_fg.spec_is_rgb()
        ||| opt_is_rgb(self.header_bg)
        ||| opt_is_rgb(self.status_bar_bg)
        ||| opt_is_rgb(self.alternating_row_bg)
    }

    /// Whether any element uses `Color::Rgb`, which requires 24-bit colour
    /// support.
    #[verifier::when_used_as_spec(spec_uses_rgb)]
    pub fn uses_rgb(&self) -> (r: bool)
        ensures
            r == self.spec_uses_rgb(),
    {
        let all = [
            self.string_fg,
            self.number_fg,
            self.bool_fg,
            self.datetime_fg,
            self.error_fg,
            self.empty_fg,
            self.header_fg,
            self.current_cell_fg,
            self.current_cell_bg,
            self.current_row_bg,
            self.current_col_fg,
            self.search_match_fg,
            self.search_match_bg,
            self.current_search_fg,
            self.current_search_bg,
            self.border_fg,
            self.status_bar_fg,
        ];
        let opts = [self.header_bg, self.alternating_row_bg, self.status_bar_bg];
        let mut found = false;
        let mut i: usize = 0;
        while i < 17
            invariant
                0 <= i <= 17,
                all@.len() == 17,
                found == exists|j: int| 0 <= j < i && (#[trigger] all@[j]).spec_is_rgb(),
            decreases 17 - i,
        {
            if all[i].is_rgb() {
                found = true;
            }
            i = i + 1;
        }
        let mut j: usize = 0;
        while j < 3
            invariant
                0 <= j <= 3,
                opts@.len() == 3,
                found == ((exists|k: int| 0 <= k < 17 && (#[trigger] all@[k]).spec_is_rgb())
                    || exists|k: int| 0 <= k < j && opt_is_rgb(#[trigger] opts@[k])),
            decreases 3 - j,
        {
            match opts[j] {
                Some(c) => {
                    if c.is_rgb() {
                        found = true;
                    }
                },
                None => {},
            }
            j = j + 1;
        }
        proof {
            assert(all@[0] == self.string_fg);
            assert(all@[1] == self.number_fg);
            assert(all@[2] == self.bool_fg);
            assert(all@[3] == self.datetime_fg);
            assert(all@[4] == self.error_fg);
            assert(all@[5] == self.empty_fg);
            assert(all@[6] == self.header_fg);
            assert(all@[7] == self.current_cell_fg);
            assert(all@[8] == self.current_cell_bg);
            assert(all@[9] == self.current_row_bg);
            assert(all@[10] == self.current_col_fg);
            assert(all@[11] == self.search_match_fg);
            assert(all@[12] == self.search_match_bg);
            assert(all@[13] == self.current_search_fg);
            assert(all@[14] == self.current_search_bg);
            assert(all@[15] == self.border_fg);
            assert(all@[16] == self.status_bar_fg);
            assert(opts@[0] == self.header_bg);
            assert(opts@[1] == self.alternating_row_bg);
            assert(opts@[2] == self.status_bar_bg);
        }
        found
    }

    /// Foreground colour for a cell, chosen by the kind of value it holds.
    pub open spec fn spec_cell_color(&self, cell: CellKind) -> Color {
        match cell {
            CellKind::Empty => self.empty_fg,
            CellKind::String => self.string_fg,
            CellKind::Int | CellKind::Float => self.number_fg,
            CellKind::Bool => self.bool_fg,
            CellKind::Error => self.error_fg,
            CellKind::DateTime => self.datetime_fg,
        }
    }

    /// Foreground colour for a cell, chosen by the kind of value it holds.
    pub fn cell_color(&self, cell: &CellKind) -> (c: Color)
        ensures
            c == self.spec_cell_color(*cell),
    {
        match cell {
            CellKind::Empty => self.empty_fg,
            CellKind::String => self.string_fg,
            CellKind::Int | CellKind::Float => self.number_fg,
            CellKind::Bool => self.bool_fg,
            CellKind::Error => self.error_fg,
            CellKind::DateTime => self.datetime_fg,
        }
    }
}

} // verus!
