//! Colors and theme configuration for a window and its terminal panes.

use vstd::prelude::*;
use crate::sash::errors::{SashError, SashResult};
use crate::frame::config::{FontWeight, FontStyle};
use crate::text::push_char;

verus! {

/// RGBA color.
#[derive(Debug, Clone, Copy, PartialEq, Eq, Structural, Default, Hash)]
pub struct Color {
    pub r: u8,
    pub g: u8,
    pub b: u8,
    pub a: u8,
}

/// The character standing for one hex digit, upper case.
pub open spec fn hex_char(v: u8) -> char
    recommends
        v < 16,
{
    if v == 0 {
        '0'
    } else if v == 1 {
        '1'
    } else if v == 2 {
        '2'
    } else if v == 3 {
        '3'
    } else if v == 4 {
        '4'
    } else if v == 5 {
        '5'
    } else if v == 6 {
        '6'
    } else if v == 7 {
        '7'
    } else if v == 8 {
        '8'
    } else if v == 9 {
        '9'
    } else if v == 10 {
        'A'
    } else if v == 11 {
        'B'
    } else if v == 12 {
        'C'
    } else if v == 13 {
        'D'
    } else if v == 14 {
        'E'
    } else {
        'F'
    }
}

/// The two hex digits of a byte, high digit first.
pub open spec fn hex_byte(v: u8) -> Seq<char> {
    seq![hex_char(v / 16), hex_char(v % 16)]
}

fn hex_char_exec(v: u8) -> (r: char)
    requires
        v < 16,
    ensures
        r == hex_char(v),
{
    match v {
        0 => '0',
        1 => '1',
        2 => '2',
        3 => '3',
        4 => '4',
        5 => '5',
        6 => '6',
        7 => '7',
        8 => '8',
        9 => '9',
        10 => 'A',
        11 => 'B',
        12 => 'C',
        13 => 'D',
        14 => 'E',
        _ => 'F',
    }
}

/// The string with every leading `#` removed.
pub open spec fn strip_hash(s: Seq<char>) -> Seq<char>
    decreases s.len(),
{
    if s.len() > 0 && s[0] == '#' {
        strip_hash(s.drop_first())
    } else {
        s
    }
}

/// Dropping a prefix of `#` characters reaches the stripped string, as
/// long as the character after the prefix is not another `#`.
proof fn lemma_strip_hash(s: Seq<char>, start: int)
    requires
        0 <= start <= s.len(),
        forall|i: int| 0 <= i < start ==> s[i] == '#',
        start < s.len() ==> s[start] != '#',
    ensures
        strip_hash(s) == s.subrange(start, s.len() as int),
    decreases start,
{
    if start == 0 {
        if s.len() > 0 {
            assert(s[0] != '#');
        }
        assert(s.subrange(0, s.len() as int) =~= s);
    } else {
        assert(s.len() > 0 && s[0] == '#');
        lemma_strip_hash(s.drop_first(), start - 1);
        assert(s.drop_first().subrange(start - 1, s.drop_first().len() as int) =~= s.subrange(
            start,
            s.len() as int,
        ));
    }
}

/// The value of one hex digit, where it is one.
fn hex_digit_value(c: char) -> (r: Option<u8>)
    ensures
        r is Some <==> Color::spec_is_hex_digit(c),
        r is Some ==> r.unwrap() == Color::spec_hex_val(c) && r.unwrap() < 16,
{
    if '0' <= c && c <= '9' {
        Some((c as u8) - ('0' as u8))
    } else if 'a' <= c && c <= 'f' {
        Some((c as u8) - ('a' as u8) + 10)
    } else if 'A' <= c && c <= 'F' {
        Some((c as u8) - ('A' as u8) + 10)
    } else {
        None
    }
}

fn push_hex_byte(s: &mut String, v: u8)
    ensures
        final(s)@ == old(s)@ + hex_byte(v),
{
    push_char(s, hex_char_exec(v / 16));
    push_char(s, hex_char_exec(v % 16));
    assert(s@ =~= old(s)@ + hex_byte(v));
}

impl Color {
    /// Create a color from RGB values (alpha fully opaque).
    pub fn from_rgb(r: u8, g: u8, b: u8) -> (c: Self)
        ensures
            c == (Color { r, g, b, a: 255u8 }),
    {
        Color { r, g, b, a: 255 }
    }

    /// Create a color from RGBA values.
    pub fn from_rgba(r: u8, g: u8, b: u8, a: u8) -> (c: Self)
        ensures
            c == (Color { r, g, b, a }),
    {
        Color { r, g, b, a }
    }

    /// The `#RRGGBB` form of this color, with the alpha appended as two more
    /// digits only where it is not fully opaque.
    pub open spec fn spec_hex(self) -> Seq<char> {
        let rgb = seq!['#'] + hex_byte(self.r) + hex_byte(self.g) + hex_byte(self.b);
        if self.a == 255 {
            rgb
        } else {
            rgb + hex_byte(self.a)
        }
    }

    /// Whether a character is a hex digit.
    pub open spec fn spec_is_hex_digit(c: char) -> bool {
        ('0' <= c && c <= '9') || ('a' <= c && c <= 'f') || ('A' <= c && c <= 'F')
    }

    /// The value of a hex digit.
    pub open spec fn spec_hex_val(c: char) -> int {
        if '0' <= c && c <= '9' {
            c as int - '0' as int
        } else if 'a' <= c && c <= 'f' {
            c as int - 'a' as int + 10
        } else {
            c as int - 'A' as int + 10
        }
    }

    /// The byte two hex digits spell, high digit first.
    pub open spec fn spec_hex_pair(hi: char, lo: char) -> int {
        Color::spec_hex_val(hi) * 16 + Color::spec_hex_val(lo)
    }

    /// Parse a color from a hex string: after any leading `#`, six digits
    /// give an opaque color, eight give one with alpha; anything else is
    /// an invalid color.
    pub fn from_hex(hex: &str) -> (r: SashResult<Self>)
        ensures
            ({
                let body = strip_hash(hex@);
                &&& (r is Ok <==> ((body.len() == 6 || body.len() == 8) && forall|i: int|
                    0 <= i < body.len() ==> Color::spec_is_hex_digit(#[trigger] body[i])))
                &&& r is Ok && body.len() == 6 ==> r.get_Ok_0() == (Color {
                    r: Color::spec_hex_pair(body[0], body[1]) as u8,
                    g: Color::spec_hex_pair(body[2], body[3]) as u8,
                    b: Color::spec_hex_pair(body[4], body[5]) as u8,
                    a: 255u8,
                })
                &&& r is Ok && body.len() == 8 ==> r.get_Ok_0() == (Color {
                    r: Color::spec_hex_pair(body[0], body[1]) as u8,
                    g: Color::spec_hex_pair(body[2], body[3]) as u8,
                    b: Color::spec_hex_pair(body[4], body[5]) as u8,
                    a: Color::spec_hex_pair(body[6], body[7]) as u8,
                })
                &&& r is Err ==> r.get_Err_0() is InvalidColor
            }),
    {
        let chars = crate::text::str_chars(hex);
        let n = chars.len();
        let mut start: usize = 0;
        while start < n && chars[start] == '#'
            invariant
                start <= n,
                n == chars@.len(),
                chars@ == hex@,
                forall|i: int| 0 <= i < start ==> hex@[i] == '#',
            decreases n - start,
        {
            start = start + 1;
        }
        proof {
            assert(strip_hash(hex@) =~= hex@.subrange(start as int, n as int)) by {
                lemma_strip_hash(hex@, start as int);
            }
        }
        let len = n - start;
        if len != 6 && len != 8 {
            return Err(SashError::InvalidColor("Invalid hex color length".to_owned()));
        }
        proof {
            assert forall|i: int|
                0 <= i < len implies #[trigger] strip_hash(hex@)[i] == hex@[start + i] by {}
        }
        let d0 = match hex_digit_value(chars[start]) {
            Some(v) => v,
            None => {
                proof {
                    assert(strip_hash(hex@)[0] == hex@[start as int]);
                }
                return Err(SashError::InvalidColor("Invalid hex color".to_owned()));
            },
        };
        let d1 = match hex_digit_value(chars[start + 1]) {
            Some(v) => v,
            None => {
                proof {
                    assert(strip_hash(hex@)[1] == hex@[start + 1]);
                }
                return Err(SashError::InvalidColor("Invalid hex color".to_owned()));
            },
        };
        let d2 = match hex_digit_value(chars[start + 2]) {
            Some(v) => v,
            None => {
                proof {
                    assert(strip_hash(hex@)[2] == hex@[start + 2]);
                }
                return Err(SashError::InvalidColor("Invalid hex color".to_owned()));
            },
        };
        let d3 = match hex_digit_value(chars[start + 3]) {
            Some(v) => v,
            None => {
                proof {
                    assert(strip_hash(hex@)[3] == hex@[start + 3]);
                }
                return Err(SashError::InvalidColor("Invalid hex color".to_owned()));
            },
        };
        let d4 = match hex_digit_value(chars[start + 4]) {
            Some(v) => v,
            None => {
                proof {
                    assert(strip_hash(hex@)[4] == hex@[start + 4]);
                }
                return Err(SashError::InvalidColor("Invalid hex color".to_owned()));
            },
        };
        let d5 = match hex_digit_value(chars[start + 5]) {
            Some(v) => v,
            None => {
                proof {
                    assert(strip_hash(hex@)[5] == hex@[start + 5]);
                }
                return Err(SashError::InvalidColor("Invalid hex color".to_owned()));
            },
        };
        let red = d0 * 16 + d1;
        let green = d2 * 16 + d3;
        let blue = d4 * 16 + d5;
        if len == 6 {
            proof {
                assert forall|i: int|
                    0 <= i < strip_hash(hex@).len() implies Color::spec_is_hex_digit(
                    #[trigger] strip_hash(hex@)[i],
                ) by {
                    assert(strip_hash(hex@)[i] == hex@[start + i]);
                }
            }
            return Ok(Color { r: red, g: green, b: blue, a: 255 });
        }
        let d6 = match hex_digit_value(chars[start + 6]) {
            Some(v) => v,
            None => {
                proof {
                    assert(strip_hash(hex@)[6] == hex@[start + 6]);
                }
                return Err(SashError::InvalidColor("Invalid hex color".to_owned()));
            },
        };
        let d7 = match hex_digit_value(chars[start + 7]) {
            Some(v) => v,
            None => {
                proof {
                    assert(strip_hash(hex@)[7] == hex@[start + 7]);
                }
                return Err(SashError::InvalidColor("Invalid hex color".to_owned()));
            },
        };
        let alpha = d6 * 16 + d7;
        proof {
            assert forall|i: int|
                0 <= i < strip_hash(hex@).len() implies Color::spec_is_hex_digit(
                #[trigger] strip_hash(hex@)[i],
            ) by {
                assert(strip_hash(hex@)[i] == hex@[start + i]);
            }
        }
        Ok(Color { r: red, g: green, b: blue, a: alpha })
    }

    /// Convert to a hex string.
    pub fn to_hex(&self) -> (s: String)
        ensures
            s@ == self.spec_hex(),
    {
        let mut s = String::new();
        push_char(&mut s, '#');
        push_hex_byte(&mut s, self.r);
        push_hex_byte(&mut s, self.g);
        push_hex_byte(&mut s, self.b);
        if self.a != 255 {
            push_hex_byte(&mut s, self.a);
        }
        assert(s@ =~= self.spec_hex());
        s
    }
}

/// Color scheme for terminal and UI elements.
#[derive(Debug, Clone, PartialEq)]
pub struct ColorScheme {
    pub foreground: Color,
    pub background: Color,
    pub cursor: Color,
    pub selection: Color,
    pub ansi_colors: [Color; 16],
    pub tab_active_bg: Color,
    pub tab_inactive_bg: Color,
    pub tab_hover_bg: Color,
    pub tab_border: Color,
    pub split_border: Color,
    pub status_bar_bg: Color,
    pub status_bar_fg: Color,
    pub border: Color,
}

impl Default for ColorScheme {
    fn default() -> (c: Self) {
        ColorScheme {
            foreground: Color::from_rgb(204, 204, 204),
            background: Color::from_rgb(30, 30, 30),
            cursor: Color::from_rgb(255, 255, 255),
            selection: Color::from_rgba(100, 100, 100, 128),
            ansi_colors: [
                Color::from_rgb(0, 0, 0),
                Color::from_rgb(205, 49, 49),
                Color::from_rgb(13, 188, 121),
                Color::from_rgb(229, 229, 16),
                Color::from_rgb(36, 114, 200),
                Color::from_rgb(188, 63, 188),
                Color::from_rgb(17, 168, 205),
                Color::from_rgb(229, 229, 229),
                Color::from_rgb(102, 102, 102),
                Color::from_rgb(241, 76, 76),
                Color::from_rgb(35, 209, 139),
                Color::from_rgb(245, 245, 67),
                Color::from_rgb(59, 142, 234),
                Color::from_rgb(214, 112, 214),
                Color::from_rgb(41, 184, 219),
                Color::from_rgb(255, 255, 255),
            ],
            tab_active_bg: Color::from_rgb(60, 60, 60),
            tab_inactive_bg: Color::from_rgb(40, 40, 40),
            tab_hover_bg: Color::from_rgb(50, 50, 50),
            tab_border: Color::from_rgb(80, 80, 80),
            split_border: Color::from_rgb(80, 80, 80),
            status_bar_bg: Color::from_rgb(40, 40, 40),
            status_bar_fg: Color::from_rgb(180, 180, 180),
            border: Color::from_rgb(80, 80, 80),
        }
    }
}

/// Font configuration for the terminal.
#[derive(Debug, Clone, PartialEq)]
pub struct FontScheme {
    pub family: String,
    pub size: u16,
    pub weight: FontWeight,
    pub style: FontStyle,
    pub ligatures: bool,
}

impl Default for FontScheme {
    fn default() -> (c: Self)
        ensures
            c.size == 12,
    {
        FontScheme {
            family: "monospace".to_owned(),
            size: 12,
            weight: FontWeight::Normal,
            style: FontStyle::Normal,
            ligatures: true,
        }
    }
}

/// Spacing configuration for UI elements.
#[derive(Debug, Clone, Copy, PartialEq, Eq, Structural)]
pub struct SpacingScheme {
    pub tab_height: u16,
    pub tab_padding: u16,
    pub split_border_width: u16,
    pub status_bar_height: u16,
    pub content_padding: u16,
}

impl Default for SpacingScheme {
    fn default() -> (c: Self)
        ensures
            c == (SpacingScheme {
                tab_height: 30u16,
                tab_padding: 10u16,
                split_border_width: 2u16,
                status_bar_height: 25u16,
                content_padding: 2u16,
            }),
    {
        SpacingScheme {
            tab_height: 30,
            tab_padding: 10,
            split_border_width: 2,
            status_bar_height: 25,
            content_padding: 2,
        }
    }
}

/// Style for tab rendering.
#[derive(Debug, Clone, Copy, PartialEq, Eq, Structural)]
pub enum TabStyle {
    Classic,
    Rounded,
    Underline,
    Minimal,
}

/// Style for border rendering.
#[derive(Debug, Clone, Copy, PartialEq, Eq, Structural)]
pub enum BorderStyle {
    Hidden,
    Solid,
    Dashed,
    Dotted,
    Double,
}

/// Decoration configuration for UI elements.
#[derive(Debug, Clone, Copy, PartialEq, Eq, Structural)]
pub struct DecorationScheme {
    pub show_tabs: bool,
    pub show_status_bar: bool,
    pub show_split_borders: bool,
    pub tab_style: TabStyle,
    pub border_style: BorderStyle,
}

impl Default for DecorationScheme {
    fn default() -> (c: Self)
        ensures
            c == (DecorationScheme {
                show_tabs: true,
                show_status_bar: true,
                show_split_borders: true,
                tab_style: TabStyle::Rounded,
                border_style: BorderStyle::Solid,
            }),
    {
        DecorationScheme {
            show_tabs: true,
            show_status_bar: true,
            show_split_borders: true,
            tab_style: TabStyle::Rounded,
            border_style: BorderStyle::Solid,
        }
    }
}

/// Complete theme configuration for a window.
#[derive(Debug, Clone, PartialEq)]
pub struct Theme {
    pub name: String,
    pub colors: ColorScheme,
    pub fonts: FontScheme,
    pub spacing: SpacingScheme,
    pub decorations: DecorationScheme,
}

impl Theme {
    /// Whether the theme's numeric settings are in their allowed ranges.
    pub open spec fn valid(self) -> bool {
        &&& 0 < self.fonts.size <= 200
        &&& self.spacing.tab_height > 0
        &&& self.spacing.status_bar_height > 0
    }

    /// Create a new theme with the given name and default settings.
    pub fn new(name: String) -> (t: Self)
        ensures
            t.name@ == name@,
    {
        Theme {
            name,
            colors: ColorScheme::default(),
            fonts: FontScheme::default(),
            spacing: SpacingScheme::default(),
            decorations: DecorationScheme::default(),
        }
    }

    /// Validate theme settings: rejects a font size of zero or above 200 and
    /// zero tab or status bar heights.
    pub fn validate(&self) -> (r: SashResult<()>)
        ensures
            r.is_ok() <==> self.valid(),
            r.is_err() ==> r.get_Err_0() is ThemeError,
    {
        if self.fonts.size == 0 || self.fonts.size > 200 {
            return Err(SashError::ThemeError(
                "Font size must be between 1 and 200".to_owned(),
            ));
        }
        if self.spacing.tab_height == 0 || self.spacing.status_bar_height == 0 {
            return Err(SashError::ThemeError(
                "Tab and status bar heights must be greater than 0".to_owned(),
            ));
        }
        Ok(())
    }
}

impl Default for Theme {
    fn default() -> (t: Self)
        ensures
            t.name@ == "default"@,
            t.valid(),
    {
        Theme {
            name: "default".to_owned(),
            colors: ColorScheme::default(),
            fonts: FontScheme::default(),
            spacing: SpacingScheme::default(),
            decorations: DecorationScheme::default(),
        }
    }
}

} // verus!
