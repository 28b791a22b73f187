//! Color palettes and the collection of built-in themes.

use vstd::prelude::*;
use crate::sash::theme::{Color, ColorScheme, DecorationScheme, FontScheme, SpacingScheme, Theme};
use crate::text::str_eq;

verus! {

/// A named list of colors.
#[derive(Debug, Clone)]
pub struct ColorPalette {
    pub colors: Vec<Color>,
    pub name: String,
}

impl ColorPalette {
    /// A new palette from a name and its colors.
    pub fn new(name: String, colors: Vec<Color>) -> (r: Self)
        ensures
            r.name@ == name@,
            r.colors@ == colors@,
    {
        ColorPalette { name, colors }
    }

    /// The color at `index`, if it exists.
    pub fn get_color(&self, index: usize) -> (r: Option<Color>)
        ensures
            (index as int) < self.colors@.len() ==> r == Some(self.colors@[index as int]),
            (index as int) >= self.colors@.len() ==> r is None,
    {
        if index < self.colors.len() {
            Some(self.colors[index])
        } else {
            None
        }
    }

    /// The standard sixteen ANSI colors.
    pub fn ansi_16() -> (r: Self)
        ensures
            r.colors@.len() == 16,
            r.name@ == "ANSI 16"@,
    {
        let mut colors: Vec<Color> = Vec::new();
        colors.push(Color::from_rgb(0, 0, 0));
        colors.push(Color::from_rgb(128, 0, 0));
        colors.push(Color::from_rgb(0, 128, 0));
        colors.push(Color::from_rgb(128, 128, 0));
        colors.push(Color::from_rgb(0, 0, 128));
        colors.push(Color::from_rgb(128, 0, 128));
        colors.push(Color::from_rgb(0, 128, 128));
        colors.push(Color::from_rgb(192, 192, 192));
        colors.push(Color::from_rgb(128, 128, 128));
        colors.push(Color::from_rgb(255, 0, 0));
        colors.push(Color::from_rgb(0, 255, 0));
        colors.push(Color::from_rgb(255, 255, 0));
        colors.push(Color::from_rgb(0, 0, 255));
        colors.push(Color::from_rgb(255, 0, 255));
        colors.push(Color::from_rgb(0, 255, 255));
        colors.push(Color::from_rgb(255, 255, 255));
        ColorPalette::new("ANSI 16".to_owned(), colors)
    }

    /// The sixteen colors of the dark solarized palette.
    pub fn solarized_dark() -> (r: Self)
        ensures
            r.colors@.len() == 16,
            r.name@ == "Solarized Dark"@,
    {
        let mut colors: Vec<Color> = Vec::new();
        colors.push(Color::from_rgb(0x00, 0x2b, 0x36));
        colors.push(Color::from_rgb(0xdc, 0x32, 0x2f));
        colors.push(Color::from_rgb(0x85, 0x99, 0x00));
        colors.push(Color::from_rgb(0xb5, 0x89, 0x00));
        colors.push(Color::from_rgb(0x26, 0x8b, 0xd2));
        colors.push(Color::from_rgb(0xd3, 0x36, 0x82));
        colors.push(Color::from_rgb(0x2a, 0xa1, 0x98));
        colors.push(Color::from_rgb(0xee, 0xe8, 0xd5));
        colors.push(Color::from_rgb(0x00, 0x2b, 0x36));
        colors.push(Color::from_rgb(0xcb, 0x4b, 0x16));
        colors.push(Color::from_rgb(0x58, 0x6e, 0x75));
        colors.push(Color::from_rgb(0x65, 0x7b, 0x83));
        colors.push(Color::from_rgb(0x83, 0x94, 0x96));
        colors.push(Color::from_rgb(0x6c, 0x71, 0xc4));
        colors.push(Color::from_rgb(0x93, 0xa1, 0xa1));
        colors.push(Color::from_rgb(0xfd, 0xf6, 0xe3));
        ColorPalette::new("Solarized Dark".to_owned(), colors)
    }

    /// The sixteen colors of the light solarized palette.
    pub fn solarized_light() -> (r: Self)
        ensures
            r.colors@.len() == 16,
            r.name@ == "Solarized Light"@,
    {
        let mut colors: Vec<Color> = Vec::new();
        colors.push(Color::from_rgb(0xfd, 0xf6, 0xe3));
        colors.push(Color::from_rgb(0xdc, 0x32, 0x2f));
        colors.push(Color::from_rgb(0x85, 0x99, 0x00));
        colors.push(Color::from_rgb(0xb5, 0x89, 0x00));
        colors.push(Color::from_rgb(0x26, 0x8b, 0xd2));
        colors.push(Color::from_rgb(0xd3, 0x36, 0x82));
        colors.push(Color::from_rgb(0x2a, 0xa1, 0x98));
        colors.push(Color::from_rgb(0x00, 0x2b, 0x36));
        colors.push(Color::from_rgb(0xee, 0xe8, 0xd5));
        colors.push(Color::from_rgb(0xcb, 0x4b, 0x16));
        colors.push(Color::from_rgb(0x93, 0xa1, 0xa1));
        colors.push(Color::from_rgb(0x83, 0x94, 0x96));
        colors.push(Color::from_rgb(0x65, 0x7b, 0x83));
        colors.push(Color::from_rgb(0x6c, 0x71, 0xc4));
        colors.push(Color::from_rgb(0x58, 0x6e, 0x75));
        colors.push(Color::from_rgb(0x00, 0x2b, 0x36));
        ColorPalette::new("Solarized Light".to_owned(), colors)
    }
}

/// The built-in theme collection, keyed by name.
#[derive(Debug)]
pub struct ThemeCollection {
    themes: Vec<(String, Theme)>,
}

impl ThemeCollection {
    /// The stored name/theme pairs.
    pub closed spec fn spec_themes(self) -> Seq<(String, Theme)> {
        self.themes@
    }

    /// A new collection holding the built-in themes.
    pub fn new() -> (r: Self)
        ensures
            r.spec_themes().len() == 3,
    {
        let mut collection = ThemeCollection { themes: Vec::new() };
        collection.add_builtin_themes();
        collection
    }

    /// Store a theme under a name.
    pub fn add_theme(&mut self, name: String, theme: Theme)
        ensures
            final(self).spec_themes().len() == old(self).spec_themes().len() + 1,
            final(self).spec_themes().last().0 == name,
            final(self).spec_themes().last().1 == theme,
    {
        self.themes.push((name, theme));
    }

    /// The theme stored under `name`, if any; the latest entry of that
    /// name wins.
    pub fn get_theme(&self, name: &str) -> (r: Option<&Theme>)
        ensures
            r is Some ==> exists|i: int|
                0 <= i < self.spec_themes().len() && (#[trigger] self.spec_themes()[i]).0@
                    == name@,
            r is None ==> forall|i: int|
                0 <= i < self.spec_themes().len() ==> (#[trigger] self.spec_themes()[i]).0@
                    != name@,
    {
        let n = self.themes.len();
        let mut i: usize = n;
        while i > 0
            invariant
                i <= n,
                n == self.spec_themes().len(),
                forall|k: int|
                    i <= k < n ==> (#[trigger] self.spec_themes()[k]).0@ != name@,
            decreases i,
        {
            i = i - 1;
            if str_eq(self.themes[i].0.as_str(), name) {
                return Some(&self.themes[i].1);
            }
        }
        None
    }

    /// Every stored theme name, in insertion order.
    pub fn list_themes(&self) -> (r: Vec<String>)
        ensures
            r@.len() == self.spec_themes().len(),
            forall|i: int|
                0 <= i < r@.len() ==> (#[trigger] r@[i])@ == self.spec_themes()[i].0@,
    {
        let mut names: Vec<String> = Vec::new();
        let n = self.themes.len();
        let mut i: usize = 0;
        while i < n
            invariant
                i <= n,
                n == self.spec_themes().len(),
                names@.len() == i,
                forall|k: int|
                    0 <= k < i ==> (#[trigger] names@[k])@ == self.spec_themes()[k].0@,
            decreases n - i,
        {
            names.push(self.themes[i].0.clone());
            i = i + 1;
        }
        names
    }

    /// Store the built-in themes: the default, and the two solarized
    /// variants.
    fn add_builtin_themes(&mut self)
        ensures
            final(self).spec_themes().len() == old(self).spec_themes().len() + 3,
    {
        self.add_theme("default".to_owned(), Theme::default());
        let solarized_dark = Theme {
            name: "Solarized Dark".to_owned(),
            colors: ColorScheme {
                foreground: Color::from_rgb(0x83, 0x94, 0x96),
                background: Color::from_rgb(0x00, 0x2b, 0x36),
                cursor: Color::from_rgb(0x83, 0x94, 0x96),
                selection: Color::from_rgb(0x07, 0x36, 0x42),
                ansi_colors: [
                    Color::from_rgb(0x00, 0x2b, 0x36),
                    Color::from_rgb(0xdc, 0x32, 0x2f),
                    Color::from_rgb(0x85, 0x99, 0x00),
                    Color::from_rgb(0xb5, 0x89, 0x00),
                    Color::from_rgb(0x26, 0x8b, 0xd2),
                    Color::from_rgb(0xd3, 0x36, 0x82),
                    Color::from_rgb(0x2a, 0xa1, 0x98),
                    Color::from_rgb(0xee, 0xe8, 0xd5),
                    Color::from_rgb(0x00, 0x2b, 0x36),
                    Color::from_rgb(0xcb, 0x4b, 0x16),
                    Color::from_rgb(0x58, 0x6e, 0x75),
                    Color::from_rgb(0x65, 0x7b, 0x83),
                    Color::from_rgb(0x83, 0x94, 0x96),
                    Color::from_rgb(0x6c, 0x71, 0xc4),
                    Color::from_rgb(0x93, 0xa1, 0xa1),
                    Color::from_rgb(0xfd, 0xf6, 0xe3),
                ],
                tab_active_bg: Color::from_rgb(0x58, 0x6e, 0x75),
                tab_inactive_bg: Color::from_rgb(0x00, 0x2b, 0x36),
                tab_hover_bg: Color::from_rgb(0x07, 0x36, 0x42),
                tab_border: Color::from_rgb(0x58, 0x6e, 0x75),
                split_border: Color::from_rgb(0x58, 0x6e, 0x75),
                status_bar_bg: Color::from_rgb(0x58, 0x6e, 0x75),
                status_bar_fg: Color::from_rgb(0x83, 0x94, 0x96),
                border: Color::from_rgb(0x58, 0x6e, 0x75),
            },
            fonts: FontScheme::default(),
            spacing: SpacingScheme::default(),
            decorations: DecorationScheme::default(),
        };
        self.add_theme("solarized-dark".to_owned(), solarized_dark);
        let solarized_light = Theme {
            name: "Solarized Light".to_owned(),
            colors: ColorScheme {
                foreground: Color::from_rgb(0x65, 0x7b, 0x83),
                background: Color::from_rgb(0xfd, 0xf6, 0xe3),
                cursor: Color::from_rgb(0x65, 0x7b, 0x83),
                selection: Color::from_rgb(0xee, 0xe8, 0xd5),
                ansi_colors: [
                    Color::from_rgb(0xfd, 0xf6, 0xe3),
                    Color::from_rgb(0xdc, 0x32, 0x2f),
                    Color::from_rgb(0x85, 0x99, 0x00),
                    Color::from_rgb(0xb5, 0x89, 0x00),
                    Color::from_rgb(0x26, 0x8b, 0xd2),
                    Color::from_rgb(0xd3, 0x36, 0x82),
                    Color::from_rgb(0x2a, 0xa1, 0x98),
                    Color::from_rgb(0x00, 0x2b, 0x36),
                    Color::from_rgb(0xee, 0xe8, 0xd5),
                    Color::from_rgb(0xcb, 0x4b, 0x16),
                    Color::from_rgb(0x93, 0xa1, 0xa1),
                    Color::from_rgb(0x83, 0x94, 0x96),
                    Color::from_rgb(0x65, 0x7b, 0x83),
                    Color::from_rgb(0x6c, 0x71, 0xc4),
                    Color::from_rgb(0x58, 0x6e, 0x75),
                    Color::from_rgb(0x00, 0x2b, 0x36),
                ],
                tab_active_bg: Color::from_rgb(0x93, 0xa1, 0xa1),
                tab_inactive_bg: Color::from_rgb(0xfd, 0xf6, 0xe3),
                tab_hover_bg: Color::from_rgb(0xee, 0xe8, 0xd5),
                tab_border: Color::from_rgb(0x93, 0xa1, 0xa1),
                split_border: Color::from_rgb(0x93, 0xa1, 0xa1),
                status_bar_bg: Color::from_rgb(0x93, 0xa1, 0xa1),
                status_bar_fg: Color::from_rgb(0x65, 0x7b, 0x83),
                border: Color::from_rgb(0x93, 0xa1, 0xa1),
            },
            fonts: FontScheme::default(),
            spacing: SpacingScheme::default(),
            decorations: DecorationScheme::default(),
        };
        self.add_theme("solarized-light".to_owned(), solarized_light);
    }
}

impl Default for ThemeCollection {
    fn default() -> (r: Self)
        ensures
            r.spec_themes().len() == 3,
    {
        ThemeCollection::new()
    }
}

} // verus!
