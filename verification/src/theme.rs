//! Colour themes of the TUI.

use vstd::prelude::*;

verus! {

/// A 24-bit colour.
#[derive(Debug, Clone, Copy, PartialEq, Eq, Structural)]
pub struct Rgb {
    pub r: u8,
    pub g: u8,
    pub b: u8,
}

/// The colours of a theme.
#[derive(Debug, Clone, Copy, PartialEq, Eq, Structural)]
pub struct Palette {
    /// Main background.
    pub base: Rgb,
    /// Slightly elevated surface.
    pub surface0: Rgb,
    /// Borders, separators.
    pub surface1: Rgb,
    /// Primary text.
    pub text: Rgb,
    /// Secondary/dimmed text.
    pub subtext0: Rgb,
    /// Links, highlights.
    pub blue: Rgb,
    /// Success, installed.
    pub green: Rgb,
    /// Warnings, stars.
    pub yellow: Rgb,
    /// Errors, destructive.
    pub red: Rgb,
    /// Categories.
    pub mauve: Rgb,
    /// Source badges.
    pub peach: Rgb,
    /// Sparklines, metrics.
    pub teal: Rgb,
}

/// A complete colour theme for the TUI.
#[derive(Debug, Clone, Copy)]
pub struct Theme {
    pub name: &'static str,
    pub colors: Palette,
}

/// Available theme variants.
#[derive(Debug, Clone, Copy, PartialEq, Eq, Structural)]
pub enum ThemeVariant {
    CatppuccinMocha,
    CatppuccinLatte,
    Dracula,
    Nord,
    TokyoNight,
    Gruvbox,
}

impl Default for ThemeVariant {
    fn default() -> (r: ThemeVariant)
        ensures
            r == ThemeVariant::CatppuccinMocha,
    {
        ThemeVariant::CatppuccinMocha
    }
}

/// Shorthand for a colour.
pub open spec fn rgb(r: u8, g: u8, b: u8) -> Rgb {
    Rgb { r, g, b }
}

fn mk(r: u8, g: u8, b: u8) -> (c: Rgb)
    ensures
        c == rgb(r, g, b),
{
    Rgb { r, g, b }
}

impl ThemeVariant {
    /// The colours of this variant.
    pub open spec fn spec_palette(self) -> Palette {
        match self {
            ThemeVariant::CatppuccinMocha => Palette {
                base: rgb(30, 30, 46),
                surface0: rgb(49, 50, 68),
                surface1: rgb(69, 71, 90),
                text: rgb(205, 214, 244),
                subtext0: rgb(166, 173, 200),
                blue: rgb(137, 180, 250),
                green: rgb(166, 227, 161),
                yellow: rgb(249, 226, 175),
                red: rgb(243, 139, 168),
                mauve: rgb(203, 166, 247),
                peach: rgb(250, 179, 135),
                teal: rgb(148, 226, 213),
            },
            ThemeVariant::CatppuccinLatte => Palette {
                base: rgb(239, 241, 245),
                surface0: rgb(220, 224, 232),
                surface1: rgb(188, 192, 204),
                text: rgb(76, 79, 105),
                subtext0: rgb(108, 111, 133),
                blue: rgb(30, 102, 245),
                green: rgb(64, 160, 43),
                yellow: rgb(223, 142, 29),
                red: rgb(210, 15, 57),
                mauve: rgb(136, 57, 239),
                peach: rgb(254, 100, 11),
                teal: rgb(23, 146, 153),
            },
            ThemeVariant::Dracula => Palette {
                base: rgb(40, 42, 54),
                surface0: rgb(68, 71, 90),
                surface1: rgb(98, 114, 164),
                text: rgb(248, 248, 242),
                subtext0: rgb(189, 147, 249),
                blue: rgb(139, 233, 253),
                green: rgb(80, 250, 123),
                yellow: rgb(241, 250, 140),
                red: rgb(255, 85, 85),
                mauve: rgb(189, 147, 249),
                peach: rgb(255, 184, 108),
                teal: rgb(139, 233, 253),
            },
            ThemeVariant::Nord => Palette {
                base: rgb(46, 52, 64),
                surface0: rgb(59, 66, 82),
                surface1: rgb(76, 86, 106),
                text: rgb(236, 239, 244),
                subtext0: rgb(216, 222, 233),
                blue: rgb(136, 192, 208),
                green: rgb(163, 190, 140),
                yellow: rgb(235, 203, 139),
                red: rgb(191, 97, 106),
                mauve: rgb(180, 142, 173),
                peach: rgb(208, 135, 112),
                teal: rgb(143, 188, 187),
            },
            ThemeVariant::TokyoNight => Palette {
                base: rgb(26, 27, 38),
                surface0: rgb(36, 40, 59),
                surface1: rgb(65, 72, 104),
                text: rgb(192, 202, 245),
                subtext0: rgb(139, 147, 175),
                blue: rgb(122, 162, 247),
                green: rgb(158, 206, 106),
                yellow: rgb(224, 175, 104),
                red: rgb(247, 118, 142),
                mauve: rgb(187, 154, 247),
                peach: rgb(255, 158, 100),
                teal: rgb(115, 218, 202),
            },
            ThemeVariant::Gruvbox => Palette {
                base: rgb(40, 40, 40),
                surface0: rgb(60, 56, 54),
                surface1: rgb(80, 73, 69),
                text: rgb(235, 219, 178),
                subtext0: rgb(189, 174, 147),
                blue: rgb(131, 165, 152),
                green: rgb(184, 187, 38),
                yellow: rgb(250, 189, 47),
                red: rgb(251, 73, 52),
                mauve: rgb(211, 134, 155),
                peach: rgb(254, 128, 25),
                teal: rgb(142, 192, 124),
            },
        }
    }

    /// Display name of this variant.
    pub open spec fn spec_display_name(self) -> Seq<char> {
        match self {
            ThemeVariant::CatppuccinMocha => "Catppuccin Mocha"@,
            ThemeVariant::CatppuccinLatte => "Catppuccin Latte"@,
            ThemeVariant::Dracula => "Dracula"@,
            ThemeVariant::Nord => "Nord"@,
            ThemeVariant::TokyoNight => "Tokyo Night"@,
            ThemeVariant::Gruvbox => "Gruvbox"@,
        }
    }

    /// The theme that follows in the cycle.
    pub open spec fn spec_next(self) -> ThemeVariant {
        match self {
            ThemeVariant::CatppuccinMocha => ThemeVariant::CatppuccinLatte,
            ThemeVariant::CatppuccinLatte => ThemeVariant::Dracula,
            ThemeVariant::Dracula => ThemeVariant::Nord,
            ThemeVariant::Nord => ThemeVariant::TokyoNight,
            ThemeVariant::TokyoNight => ThemeVariant::Gruvbox,
            ThemeVariant::Gruvbox => ThemeVariant::CatppuccinMocha,
        }
    }

    /// Get the theme for this variant.
    pub fn theme(&self) -> (r: Theme)
        ensures
            r.name@ == self.spec_display_name(),
            r.colors == self.spec_palette(),
    {
        match self {
            ThemeVariant::CatppuccinMocha => Theme {
                name: "Catppuccin Mocha",
                colors: Palette {
                    base: mk(30, 30, 46),
                    surface0: mk(49, 50, 68),
                    surface1: mk(69, 71, 90),
                    text: mk(205, 214, 244),
                    subtext0: mk(166, 173, 200),
                    blue: mk(137, 180, 250),
                    green: mk(166, 227, 161),
                    yellow: mk(249, 226, 175),
                    red: mk(243, 139, 168),
                    mauve: mk(203, 166, 247),
                    peach: mk(250, 179, 135),
                    teal: mk(148, 226, 213),
                },
            },
            ThemeVariant::CatppuccinLatte => Theme {
                name: "Catppuccin Latte",
                colors: Palette {
                    base: mk(239, 241, 245),
                    surface0: mk(220, 224, 232),
                    surface1: mk(188, 192, 204),
                    text: mk(76, 79, 105),
                    subtext0: mk(108, 111, 133),
                    blue: mk(30, 102, 245),
                    green: mk(64, 160, 43),
                    yellow: mk(223, 142, 29),
                    red: mk(210, 15, 57),
                    mauve: mk(136, 57, 239),
                    peach: mk(254, 100, 11),
                    teal: mk(23, 146, 153),
                },
            },
            ThemeVariant::Dracula => Theme {
                name: "Dracula",
                colors: Palette {
                    base: mk(40, 42, 54),
                    surface0: mk(68, 71, 90),
                    surface1: mk(98, 114, 164),
                    text: mk(248, 248, 242),
                    subtext0: mk(189, 147, 249),
                    blue: mk(139, 233, 253),
                    green: mk(80, 250, 123),
                    yellow: mk(241, 250, 140),
                    red: mk(255, 85, 85),
                    mauve: mk(189, 147, 249),
                    peach: mk(255, 184, 108),
                    teal: mk(139, 233, 253),
                },
            },
            ThemeVariant::Nord => Theme {
                name: "Nord",
                colors: Palette {
                    base: mk(46, 52, 64),
                    surface0: mk(59, 66, 82),
                    surface1: mk(76, 86, 106),
                    text: mk(236, 239, 244),
                    subtext0: mk(216, 222, 233),
                    blue: mk(136, 192, 208),
                    green: mk(163, 190, 140),
                    yellow: mk(235, 203, 139),
                    red: mk(191, 97, 106),
                    mauve: mk(180, 142, 173),
                    peach: mk(208, 135, 112),
                    teal: mk(143, 188, 187),
                },
            },
            ThemeVariant::TokyoNight => Theme {
                name: "Tokyo Night",
                colors: Palette {
                    base: mk(26, 27, 38),
                    surface0: mk(36, 40, 59),
                    surface1: mk(65, 72, 104),
                    text: mk(192, 202, 245),
                    subtext0: mk(139, 147, 175),
                    blue: mk(122, 162, 247),
                    green: mk(158, 206, 106),
                    yellow: mk(224, 175, 104),
                    red: mk(247, 118, 142),
                    mauve: mk(187, 154, 247),
                    peach: mk(255, 158, 100),
                    teal: mk(115, 218, 202),
                },
            },
            ThemeVariant::Gruvbox => Theme {
                name: "Gruvbox",
                colors: Palette {
                    base: mk(40, 40, 40),
                    surface0: mk(60, 56, 54),
                    surface1: mk(80, 73, 69),
                    text: mk(235, 219, 178),
                    subtext0: mk(189, 174, 147),
                    blue: mk(131, 165, 152),
                    green: mk(184, 187, 38),
                    yellow: mk(250, 189, 47),
                    red: mk(251, 73, 52),
                    mauve: mk(211, 134, 155),
                    peach: mk(254, 128, 25),
                    teal: mk(142, 192, 124),
                },
            },
        }
    }

    /// Cycle to the next theme.
    pub fn next(&self) -> (r: ThemeVariant)
        ensures
            r == self.spec_next(),
    {
        match self {
            ThemeVariant::CatppuccinMocha => ThemeVariant::CatppuccinLatte,
            ThemeVariant::CatppuccinLatte => ThemeVariant::Dracula,
            ThemeVariant::Dracula => ThemeVariant::Nord,
            ThemeVariant::Nord => ThemeVariant::TokyoNight,
            ThemeVariant::TokyoNight => ThemeVariant::Gruvbox,
            ThemeVariant::Gruvbox => ThemeVariant::CatppuccinMocha,
        }
    }

    /// All available variants.
    pub fn all() -> (r: &'static [ThemeVariant])
        ensures
            r@ == seq![
                ThemeVariant::CatppuccinMocha,
                ThemeVariant::CatppuccinLatte,
                ThemeVariant::Dracula,
                ThemeVariant::Nord,
                ThemeVariant::TokyoNight,
                ThemeVariant::Gruvbox,
            ],
    {
        &[
            ThemeVariant::CatppuccinMocha,
            ThemeVariant::CatppuccinLatte,
            ThemeVariant::Dracula,
            ThemeVariant::Nord,
            ThemeVariant::TokyoNight,
            ThemeVariant::Gruvbox,
        ]
    }

    /// Display name.
    pub fn display_name(&self) -> (r: &'static str)
        ensures
            r@ == self.spec_display_name(),
    {
        match self {
            ThemeVariant::CatppuccinMocha => "Catppuccin Mocha",
            ThemeVariant::CatppuccinLatte => "Catppuccin Latte",
            ThemeVariant::Dracula => "Dracula",
            ThemeVariant::Nord => "Nord",
            ThemeVariant::TokyoNight => "Tokyo Night",
            ThemeVariant::Gruvbox => "Gruvbox",
        }
    }
}

/// Cycling through the themes visits each of the six and comes back.
pub proof fn law_theme_cycle(v: ThemeVariant)
    ensures
        v.spec_next().spec_next().spec_next().spec_next().spec_next().spec_next() == v,
        v.spec_next() != v,
{
}

/// The status line after asking to create the custom theme file, and
/// whether it reports an error: `existed` is whether the file was there
/// already, `created` what creating it gave (whether a file was written,
/// or the error), `path` where the file is, when known.
pub open spec fn spec_create_theme_status(
    existed: bool,
    created: Result<bool, Seq<char>>,
    path: Option<Seq<char>>,
) -> (Seq<char>, bool) {
    if existed {
        match path {
            Some(p) => ("Custom theme already exists: "@ + p, false),
            None => ("Custom theme already exists"@, false),
        }
    } else {
        match created {
            Ok(true) => match path {
                Some(p) => ("Created custom theme: "@ + p, false),
                None => ("Created custom theme file"@, false),
            },
            Ok(false) => ("Custom theme already exists"@, false),
            Err(e) => ("Failed to create theme: "@ + e, true),
        }
    }
}

/// The status line after asking to create the custom theme file (see
/// `spec_create_theme_status`).
pub fn create_theme_status(existed: bool, created: Result<bool, &str>, path: Option<&str>) -> (r: (
    String,
    bool,
))
    ensures
        (r.0@, r.1) == spec_create_theme_status(
            existed,
            match created {
                Ok(b) => Ok(b),
                Err(e) => Err(e@),
            },
            match path {
                Some(p) => Some(p@),
                None => None,
            },
        ),
{
    if existed {
        match path {
            Some(p) => {
                let mut t = String::from_str("Custom theme already exists: ");
                t.append(p);
                (t, false)
            },
            None => (String::from_str("Custom theme already exists"), false),
        }
    } else {
        match created {
            Ok(true) => match path {
                Some(p) => {
                    let mut t = String::from_str("Created custom theme: ");
                    t.append(p);
                    (t, false)
                },
                None => (String::from_str("Created custom theme file"), false),
            },
            Ok(false) => (String::from_str("Custom theme already exists"), false),
            Err(e) => {
                let mut t = String::from_str("Failed to create theme: ");
                t.append(e);
                (t, true)
            },
        }
    }
}

/// The status line that shows where the custom theme file is, and
/// whether it reports an error: the path when the file exists, a hint to
/// create it when it does not, the error when its place is unknown.
pub open spec fn spec_theme_path_status(place: Result<(Seq<char>, bool), Seq<char>>) -> (Seq<char>, bool) {
    match place {
        Ok((p, true)) => ("Custom theme: "@ + p, false),
        Ok((_, false)) => ("Custom theme not found. Create with :create-theme"@, true),
        Err(e) => ("Error: "@ + e, true),
    }
}

/// The status line that shows where the custom theme file is (see
/// `spec_theme_path_status`); `place` is its path and whether it exists,
/// or why its place is unknown.
pub fn theme_path_status(place: Result<(&str, bool), &str>) -> (r: (String, bool))
    ensures
        (r.0@, r.1) == spec_theme_path_status(
            match place {
                Ok((p, e)) => Ok((p@, e)),
                Err(e) => Err(e@),
            },
        ),
{
    match place {
        Ok((p, true)) => {
            let mut t = String::from_str("Custom theme: ");
            t.append(p);
            (t, false)
        },
        Ok((_, false)) => (String::from_str("Custom theme not found. Create with :create-theme"), true),
        Err(e) => {
            let mut t = String::from_str("Error: ");
            t.append(e);
            (t, true)
        },
    }
}

} // verus!

