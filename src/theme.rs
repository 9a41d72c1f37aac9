//! Display settings of the player: the colour theme and the panels shown.

use vstd::prelude::*;

verus! {

/// Colour themes, in the order in which they cycle.
#[derive(Clone, Copy, Debug, PartialEq, Eq, Structural)]
pub enum Theme {
    Dark,
    Light,
    Synthwave,
    Ocean,
    Forest,
    Cyberpunk,
    Neon,
    Retro,
    Sunset,
    Matrix,
    Arctic,
    Fire,
    System,
}

/// The theme after `t` in the cycle; the last wraps round to the first.
pub open spec fn spec_next_theme(t: Theme) -> Theme {
    match t {
        Theme::Dark => Theme::Light,
        Theme::Light => Theme::Synthwave,
        Theme::Synthwave => Theme::Ocean,
        Theme::Ocean => Theme::Forest,
        Theme::Forest => Theme::Cyberpunk,
        Theme::Cyberpunk => Theme::Neon,
        Theme::Neon => Theme::Retro,
        Theme::Retro => Theme::Sunset,
        Theme::Sunset => Theme::Matrix,
        Theme::Matrix => Theme::Arctic,
        Theme::Arctic => Theme::Fire,
        Theme::Fire => Theme::System,
        Theme::System => Theme::Dark,
    }
}

pub open spec fn cycle_n(t: Theme, n: nat) -> Theme
    decreases n,
{
    if n == 0 {
        t
    } else {
        spec_next_theme(cycle_n(t, (n - 1) as nat))
    }
}

/// Position of a theme in the cycle.
pub open spec fn theme_index(t: Theme) -> nat {
    match t {
        Theme::Dark => 0,
        Theme::Light => 1,
        Theme::Synthwave => 2,
        Theme::Ocean => 3,
        Theme::Forest => 4,
        Theme::Cyberpunk => 5,
        Theme::Neon => 6,
        Theme::Retro => 7,
        Theme::Sunset => 8,
        Theme::Matrix => 9,
        Theme::Arctic => 10,
        Theme::Fire => 11,
        Theme::System => 12,
    }
}

proof fn lemma_cycle_index(t: Theme, n: nat)
    ensures
        theme_index(cycle_n(t, n)) == (theme_index(t) + n) % 13,
    decreases n,
{
    if n > 0 {
        lemma_cycle_index(t, (n - 1) as nat);
    }
}

/// Cycling thirteen times comes back to the starting theme, and no fewer
/// steps do.
pub proof fn lemma_theme_cycle_period(t: Theme)
    ensures
        cycle_n(t, 13) == t,
        forall|n: nat| 0 < n < 13 ==> #[trigger] cycle_n(t, n) != t,
{
    lemma_cycle_index(t, 13);
    assert forall|n: nat| 0 < n < 13 implies #[trigger] cycle_n(t, n) != t by {
        lemma_cycle_index(t, n);
    }
}

/// Colours that a theme names: the terminal's named colours, or an exact
/// RGB value.
#[derive(Clone, Copy, Debug, PartialEq, Eq, Structural)]
pub enum Color {
    Black,
    White,
    Blue,
    Cyan,
    Yellow,
    Gray,
    Magenta,
    Rgb(u8, u8, u8),
}

/// The palette of a theme, one colour per role.
#[derive(Clone, Copy, Debug, PartialEq, Eq, Structural)]
pub struct ThemeColors {
    pub background: Color,
    pub foreground: Color,
    pub primary: Color,
    pub secondary: Color,
    pub accent: Color,
    pub border: Color,
    pub text: Color,
    pub highlight: Color,
}

/// The palette of each theme.
pub open spec fn spec_colors(t: Theme) -> ThemeColors {
    match t {
        Theme::Dark => ThemeColors {
            background: Color::Black,
            foreground: Color::White,
            primary: Color::Blue,
            secondary: Color::Cyan,
            accent: Color::Yellow,
            border: Color::Gray,
            text: Color::White,
            highlight: Color::Magenta,
        },
        Theme::Light => ThemeColors {
            background: Color::White,
            foreground: Color::Black,
            primary: Color::Blue,
            secondary: Color::Cyan,
            accent: Color::Yellow,
            border: Color::Gray,
            text: Color::Black,
            highlight: Color::Magenta,
        },
        Theme::Synthwave => ThemeColors {
            background: Color::Rgb(20, 20, 40),
            foreground: Color::Rgb(255, 100, 255),
            primary: Color::Rgb(255, 100, 255),
            secondary: Color::Rgb(100, 255, 255),
            accent: Color::Rgb(255, 255, 100),
            border: Color::Rgb(100, 100, 200),
            text: Color::Rgb(255, 255, 255),
            highlight: Color::Rgb(255, 50, 150),
        },
        Theme::Ocean => ThemeColors {
            background: Color::Rgb(0, 20, 40),
            foreground: Color::Rgb(100, 200, 255),
            primary: Color::Rgb(0, 150, 255),
            secondary: Color::Rgb(100, 255, 255),
            accent: Color::Rgb(255, 255, 100),
            border: Color::Rgb(50, 100, 150),
            text: Color::Rgb(200, 220, 255),
            highlight: Color::Rgb(0, 255, 200),
        },
        Theme::Forest => ThemeColors {
            background: Color::Rgb(20, 40, 20),
            foreground: Color::Rgb(100, 255, 100),
            primary: Color::Rgb(0, 200, 0),
            secondary: Color::Rgb(100, 255, 100),
            accent: Color::Rgb(255, 255, 100),
            border: Color::Rgb(100, 150, 100),
            text: Color::Rgb(200, 255, 200),
            highlight: Color::Rgb(255, 200, 0),
        },
        Theme::Cyberpunk => ThemeColors {
            background: Color::Rgb(10, 5, 20),
            foreground: Color::Rgb(255, 0, 255),
            primary: Color::Rgb(255, 0, 255),
            secondary: Color::Rgb(0, 255, 255),
            accent: Color::Rgb(255, 255, 0),
            border: Color::Rgb(100, 0, 200),
            text: Color::Rgb(255, 200, 255),
            highlight: Color::Rgb(255, 100, 255),
        },
        Theme::Neon => ThemeColors {
            background: Color::Rgb(0, 0, 0),
            foreground: Color::Rgb(0, 255, 255),
            primary: Color::Rgb(0, 255, 255),
            secondary: Color::Rgb(255, 0, 255),
            accent: Color::Rgb(255, 255, 0),
            border: Color::Rgb(50, 50, 50),
            text: Color::Rgb(200, 255, 255),
            highlight: Color::Rgb(0, 255, 200),
        },
        Theme::Retro => ThemeColors {
            background: Color::Rgb(40, 20, 10),
            foreground: Color::Rgb(255, 200, 100),
            primary: Color::Rgb(255, 150, 0),
            secondary: Color::Rgb(255, 200, 100),
            accent: Color::Rgb(255, 100, 0),
            border: Color::Rgb(150, 100, 50),
            text: Color::Rgb(255, 220, 180),
            highlight: Color::Rgb(255, 180, 0),
        },
        Theme::Sunset => ThemeColors {
            background: Color::Rgb(30, 15, 40),
            foreground: Color::Rgb(255, 100, 50),
            primary: Color::Rgb(255, 150, 0),
            secondary: Color::Rgb(255, 100, 150),
            accent: Color::Rgb(255, 200, 0),
            border: Color::Rgb(150, 75, 100),
            text: Color::Rgb(255, 180, 200),
            highlight: Color::Rgb(255, 120, 80),
        },
        Theme::Matrix => ThemeColors {
            background: Color::Rgb(0, 0, 0),
            foreground: Color::Rgb(0, 255, 0),
            primary: Color::Rgb(0, 255, 0),
            secondary: Color::Rgb(0, 200, 0),
            accent: Color::Rgb(0, 255, 100),
            border: Color::Rgb(0, 100, 0),
            text: Color::Rgb(0, 255, 0),
            highlight: Color::Rgb(100, 255, 100),
        },
        Theme::Arctic => ThemeColors {
            background: Color::Rgb(5, 15, 30),
            foreground: Color::Rgb(150, 200, 255),
            primary: Color::Rgb(100, 150, 255),
            secondary: Color::Rgb(150, 200, 255),
            accent: Color::Rgb(200, 220, 255),
            border: Color::Rgb(50, 100, 150),
            text: Color::Rgb(200, 220, 255),
            highlight: Color::Rgb(100, 180, 255),
        },
        Theme::Fire => ThemeColors {
            background: Color::Rgb(20, 5, 0),
            foreground: Color::Rgb(255, 100, 0),
            primary: Color::Rgb(255, 150, 0),
            secondary: Color::Rgb(255, 100, 0),
            accent: Color::Rgb(255, 200, 0),
            border: Color::Rgb(150, 50, 0),
            text: Color::Rgb(255, 180, 150),
            highlight: Color::Rgb(255, 120, 0),
        },
        Theme::System => ThemeColors {
            background: Color::Rgb(0, 15, 20),
            foreground: Color::Rgb(0, 255, 100),
            primary: Color::Rgb(0, 255, 100),
            secondary: Color::Rgb(255, 100, 255),
            accent: Color::Rgb(255, 255, 0),
            border: Color::Rgb(0, 255, 100),
            text: Color::Rgb(200, 255, 200),
            highlight: Color::Rgb(255, 255, 0),
        },
    }
}

impl Theme {
    /// This theme's palette.
    pub fn colors(&self) -> (r: ThemeColors)
        ensures
            r == spec_colors(*self),
    {
        match self {
            Theme::Dark => ThemeColors {
                background: Color::Black,
                foreground: Color::White,
                primary: Color::Blue,
                secondary: Color::Cyan,
                accent: Color::Yellow,
                border: Color::Gray,
                text: Color::White,
                highlight: Color::Magenta,
            },
            Theme::Light => ThemeColors {
                background: Color::White,
                foreground: Color::Black,
                primary: Color::Blue,
                secondary: Color::Cyan,
                accent: Color::Yellow,
                border: Color::Gray,
                text: Color::Black,
                highlight: Color::Magenta,
            },
            Theme::Synthwave => ThemeColors {
                background: Color::Rgb(20, 20, 40),
                foreground: Color::Rgb(255, 100, 255),
                primary: Color::Rgb(255, 100, 255),
                secondary: Color::Rgb(100, 255, 255),
                accent: Color::Rgb(255, 255, 100),
                border: Color::Rgb(100, 100, 200),
                text: Color::Rgb(255, 255, 255),
                highlight: Color::Rgb(255, 50, 150),
            },
            Theme::Ocean => ThemeColors {
                background: Color::Rgb(0, 20, 40),
                foreground: Color::Rgb(100, 200, 255),
                primary: Color::Rgb(0, 150, 255),
                secondary: Color::Rgb(100, 255, 255),
                accent: Color::Rgb(255, 255, 100),
                border: Color::Rgb(50, 100, 150),
                text: Color::Rgb(200, 220, 255),
                highlight: Color::Rgb(0, 255, 200),
            },
            Theme::Forest => ThemeColors {
                background: Color::Rgb(20, 40, 20),
                foreground: Color::Rgb(100, 255, 100),
                primary: Color::Rgb(0, 200, 0),
                secondary: Color::Rgb(100, 255, 100),
                accent: Color::Rgb(255, 255, 100),
                border: Color::Rgb(100, 150, 100),
                text: Color::Rgb(200, 255, 200),
                highlight: Color::Rgb(255, 200, 0),
            },
            Theme::Cyberpunk => ThemeColors {
                background: Color::Rgb(10, 5, 20),
                foreground: Color::Rgb(255, 0, 255),
                primary: Color::Rgb(255, 0, 255),
                secondary: Color::Rgb(0, 255, 255),
                accent: Color::Rgb(255, 255, 0),
                border: Color::Rgb(100, 0, 200),
                text: Color::Rgb(255, 200, 255),
                highlight: Color::Rgb(255, 100, 255),
            },
            Theme::Neon => ThemeColors {
                background: Color::Rgb(0, 0, 0),
                foreground: Color::Rgb(0, 255, 255),
                primary: Color::Rgb(0, 255, 255),
                secondary: Color::Rgb(255, 0, 255),
                accent: Color::Rgb(255, 255, 0),
                border: Color::Rgb(50, 50, 50),
                text: Color::Rgb(200, 255, 255),
                highlight: Color::Rgb(0, 255, 200),
            },
            Theme::Retro => ThemeColors {
                background: Color::Rgb(40, 20, 10),
                foreground: Color::Rgb(255, 200, 100),
                primary: Color::Rgb(255, 150, 0),
                secondary: Color::Rgb(255, 200, 100),
                accent: Color::Rgb(255, 100, 0),
                border: Color::Rgb(150, 100, 50),
                text: Color::Rgb(255, 220, 180),
                highlight: Color::Rgb(255, 180, 0),
            },
            Theme::Sunset => ThemeColors {
                background: Color::Rgb(30, 15, 40),
                foreground: Color::Rgb(255, 100, 50),
                primary: Color::Rgb(255, 150, 0),
                secondary: Color::Rgb(255, 100, 150),
                accent: Color::Rgb(255, 200, 0),
                border: Color::Rgb(150, 75, 100),
                text: Color::Rgb(255, 180, 200),
                highlight: Color::Rgb(255, 120, 80),
            },
            Theme::Matrix => ThemeColors {
                background: Color::Rgb(0, 0, 0),
                foreground: Color::Rgb(0, 255, 0),
                primary: Color::Rgb(0, 255, 0),
                secondary: Color::Rgb(0, 200, 0),
                accent: Color::Rgb(0, 255, 100),
                border: Color::Rgb(0, 100, 0),
                text: Color::Rgb(0, 255, 0),
                highlight: Color::Rgb(100, 255, 100),
            },
            Theme::Arctic => ThemeColors {
                background: Color::Rgb(5, 15, 30),
                foreground: Color::Rgb(150, 200, 255),
                primary: Color::Rgb(100, 150, 255),
                secondary: Color::Rgb(150, 200, 255),
                accent: Color::Rgb(200, 220, 255),
                border: Color::Rgb(50, 100, 150),
                text: Color::Rgb(200, 220, 255),
                highlight: Color::Rgb(100, 180, 255),
            },
            Theme::Fire => ThemeColors {
                background: Color::Rgb(20, 5, 0),
                foreground: Color::Rgb(255, 100, 0),
                primary: Color::Rgb(255, 150, 0),
                secondary: Color::Rgb(255, 100, 0),
                accent: Color::Rgb(255, 200, 0),
                border: Color::Rgb(150, 50, 0),
                text: Color::Rgb(255, 180, 150),
                highlight: Color::Rgb(255, 120, 0),
            },
            Theme::System => ThemeColors {
                background: Color::Rgb(0, 15, 20), // Dark teal background
                foreground: Color::Rgb(0, 255, 100), // Bright green
                primary: Color::Rgb(0, 255, 100), // Bright green titles
                secondary: Color::Rgb(255, 100, 255), // Bright pink labels
                accent: Color::Rgb(255, 255, 0), // Bright yellow highlights
                border: Color::Rgb(0, 255, 100), // Bright green borders
                text: Color::Rgb(200, 255, 200), // Light green text
                highlight: Color::Rgb(255, 255, 0), // Bright yellow progress bars
            },
        }
    }
}

/// Which theme and panels the interface shows.
#[derive(Clone, Debug)]
pub struct AppState {
    pub current_theme: Theme,
    pub rainbow_mode: bool,
    pub show_albums: bool,
    pub show_tracks: bool,
    pub show_shortcuts: bool,
    pub show_directory_selector: bool,
}

impl AppState {
    /// System theme, album list and shortcuts shown, the rest off.
    pub fn new() -> (r: Self)
        ensures
            r.current_theme == Theme::System,
            !r.rainbow_mode,
            r.show_albums,
            !r.show_tracks,
            r.show_shortcuts,
            !r.show_directory_selector,
    {
        AppState {
            current_theme: Theme::System,
            rainbow_mode: false,
            show_albums: true,
            show_tracks: false,
            show_shortcuts: true,
            show_directory_selector: false,
        }
    }

    /// Moves to the next theme of the cycle.
    pub fn cycle_theme(&mut self)
        ensures
            *final(self) == (AppState {
                current_theme: spec_next_theme(old(self).current_theme),
                ..*old(self)
            }),
    {
        self.current_theme =
        match self.current_theme {
            Theme::Dark => Theme::Light,
            Theme::Light => Theme::Synthwave,
            Theme::Synthwave => Theme::Ocean,
            Theme::Ocean => Theme::Forest,
            Theme::Forest => Theme::Cyberpunk,
            Theme::Cyberpunk => Theme::Neon,
            Theme::Neon => Theme::Retro,
            Theme::Retro => Theme::Sunset,
            Theme::Sunset => Theme::Matrix,
            Theme::Matrix => Theme::Arctic,
            Theme::Arctic => Theme::Fire,
            Theme::Fire => Theme::System,
            Theme::System => Theme::Dark,
        };
    }

    pub fn toggle_rainbow_mode(&mut self)
        ensures
            *final(self) == (AppState { rainbow_mode: !old(self).rainbow_mode, ..*old(self) }),
    {
        self.rainbow_mode = !self.rainbow_mode;
    }

    pub fn toggle_shortcuts(&mut self)
        ensures
            *final(self) == (AppState { show_shortcuts: !old(self).show_shortcuts, ..*old(self) }),
    {
        self.show_shortcuts = !self.show_shortcuts;
    }

    pub fn toggle_directory_selector(&mut self)
        ensures
            *final(self) == (AppState {
                show_directory_selector: !old(self).show_directory_selector,
                ..*old(self)
            }),
    {
        self.show_directory_selector = !self.show_directory_selector;
    }
}

} // verus!
