//! Colour themes.

use vstd::prelude::*;
use vstd::string::*;

verus! {

/// An opaque colour, eight bits to the channel.
#[derive(Debug, Clone, Copy, PartialEq, Eq, Structural)]
pub struct Color {
    pub r: u8,
    pub g: u8,
    pub b: u8,
}

/// Background and foreground.
#[derive(Debug, Clone, Copy, PartialEq, Eq, Structural)]
pub struct BaseColors {
    pub background: Color,
    pub foreground: Color,
}

/// The muted colours.
#[derive(Debug, Clone, Copy, PartialEq, Eq, Structural)]
pub struct NormalColors {
    pub primary: Color,
    pub secondary: Color,
    pub surface: Color,
    pub error: Color,
}

/// The vivid colours.
#[derive(Debug, Clone, Copy, PartialEq, Eq, Structural)]
pub struct BrightColors {
    pub primary: Color,
    pub secondary: Color,
    pub surface: Color,
    pub error: Color,
}

/// The ten colours of a theme.
#[derive(Debug, Clone, Copy, PartialEq, Eq, Structural)]
pub struct ColorPalette {
    pub base: BaseColors,
    pub normal: NormalColors,
    pub bright: BrightColors,
}

/// A named palette. Two themes are the same theme when they have the same
/// name.
#[derive(Debug, Clone)]
pub struct Theme {
    pub name: String,
    pub palette: ColorPalette,
}

impl PartialEq for Theme {
    fn eq(&self, other: &Self) -> (same: bool) {
        self.name == other.name
    }
}

impl vstd::std_specs::cmp::PartialEqSpecImpl for Theme {
    open spec fn obeys_eq_spec() -> bool {
        true
    }

    open spec fn eq_spec(&self, other: &Self) -> bool {
        self.name@ == other.name@
    }
}

/// The value of a hexadecimal digit, in either case.
pub open spec fn spec_hex_digit(c: u8) -> Option<u8> {
    if 48 <= c <= 57 {
        Some((c - 48) as u8)
    } else if 65 <= c <= 70 {
        Some((c - 55) as u8)
    } else if 97 <= c <= 102 {
        Some((c - 87) as u8)
    } else {
        None
    }
}

/// The number that two characters stand for in base 16: two digits, or a
/// plus sign and one digit.
pub open spec fn spec_hex_pair(high: u8, low: u8) -> Option<u8> {
    if high == 43 {
        spec_hex_digit(low)
    } else {
        match (spec_hex_digit(high), spec_hex_digit(low)) {
            (Some(h), Some(l)) => Some((16 * h + l) as u8),
            _ => None,
        }
    }
}

/// The colour that a text such as `#09ACDF` stands for: a hash sign and
/// three numbers of two characters each, seven ASCII characters in all.
pub open spec fn spec_hex_to_color(hex: Seq<char>) -> Option<Color> {
    if hex.len() == 7 && vstd::utf8::is_ascii_chars(hex) && hex[0] == '#' {
        match (
            spec_hex_pair(hex[1] as u8, hex[2] as u8),
            spec_hex_pair(hex[3] as u8, hex[4] as u8),
            spec_hex_pair(hex[5] as u8, hex[6] as u8),
        ) {
            (Some(r), Some(g), Some(b)) => Some(Color { r, g, b }),
            _ => None,
        }
    } else {
        None
    }
}

/// The upper-case hexadecimal digit of a number below 16.
pub open spec fn spec_hex_char(n: u8) -> char {
    if n < 10 {
        (48 + n) as char
    } else {
        (55 + n) as char
    }
}

/// The text of a colour: a hash sign, then red, green and blue in two
/// upper-case hexadecimal digits each.
pub open spec fn spec_color_to_hex(color: Color) -> Seq<char> {
    seq![
        '#',
        spec_hex_char(color.r / 16),
        spec_hex_char(color.r % 16),
        spec_hex_char(color.g / 16),
        spec_hex_char(color.g % 16),
        spec_hex_char(color.b / 16),
        spec_hex_char(color.b % 16),
    ]
}

/// The colour `0xRRGGBB`.
pub open spec fn spec_rgb(rgb: u32) -> Color {
    Color {
        r: ((rgb >> 16) & 0xff) as u8,
        g: ((rgb >> 8) & 0xff) as u8,
        b: (rgb & 0xff) as u8,
    }
}

/// The palette of ten colours, in the order base background and
/// foreground, then primary, secondary, surface and error, normal and
/// bright.
pub open spec fn spec_palette(colors: Seq<u32>) -> ColorPalette {
    ColorPalette {
        base: BaseColors { background: spec_rgb(colors[0]), foreground: spec_rgb(colors[1]) },
        normal: NormalColors {
            primary: spec_rgb(colors[2]),
            secondary: spec_rgb(colors[3]),
            surface: spec_rgb(colors[4]),
            error: spec_rgb(colors[5]),
        },
        bright: BrightColors {
            primary: spec_rgb(colors[6]),
            secondary: spec_rgb(colors[7]),
            surface: spec_rgb(colors[8]),
            error: spec_rgb(colors[9]),
        },
    }
}

fn hex_digit(c: u8) -> (value: Option<u8>)
    ensures
        value == spec_hex_digit(c),
        value matches Some(v) ==> v < 16,
{
    if 48 <= c && c <= 57 {
        Some(c - 48)
    } else if 65 <= c && c <= 70 {
        Some(c - 55)
    } else if 97 <= c && c <= 102 {
        Some(c - 87)
    } else {
        None
    }
}

fn hex_pair(high: u8, low: u8) -> (value: Option<u8>)
    ensures
        value == spec_hex_pair(high, low),
{
    if high == 43 {
        return hex_digit(low);
    }
    match (hex_digit(high), hex_digit(low)) {
        (Some(h), Some(l)) => Some(16 * h + l),
        _ => None,
    }
}

/// Reads a colour from a text such as `#09ACDF`. Any other text, one with
/// a character outside ASCII among them, is no colour.
pub fn hex_to_color(hex: &str) -> (color: Option<Color>)
    ensures
        color == spec_hex_to_color(hex@),
{
    if !hex.is_ascii() {
        return None;
    }
    proof {
        is_ascii_spec_bytes(hex);
    }
    let bytes = hex.as_bytes();
    if bytes.len() != 7 {
        return None;
    }
    assert(forall|i: int| 0 <= i < 7 ==> bytes@[i] == hex@[i] as u8);
    assert(vstd::utf8::is_ascii_chars(hex@));
    assert((hex@[0] as u32) < 128);
    if bytes[0] != 35 {
        return None;
    }
    let r = hex_pair(bytes[1], bytes[2]);
    let g = hex_pair(bytes[3], bytes[4]);
    let b = hex_pair(bytes[5], bytes[6]);
    match (r, g, b) {
        (Some(r), Some(g), Some(b)) => Some(Color { r, g, b }),
        _ => None,
    }
}

fn hex_char(n: u8) -> (digit: &'static str)
    requires
        n < 16,
    ensures
        digit@ == seq![spec_hex_char(n)],
{
    proof {
        reveal_strlit("0");
        reveal_strlit("1");
        reveal_strlit("2");
        reveal_strlit("3");
        reveal_strlit("4");
        reveal_strlit("5");
        reveal_strlit("6");
        reveal_strlit("7");
        reveal_strlit("8");
        reveal_strlit("9");
        reveal_strlit("A");
        reveal_strlit("B");
        reveal_strlit("C");
        reveal_strlit("D");
        reveal_strlit("E");
        reveal_strlit("F");
    }
    let digit = match n {
        0 => "0",
        1 => "1",
        2 => "2",
        3 => "3",
        4 => "4",
        5 => "5",
        6 => "6",
        7 => "7",
        8 => "8",
        9 => "9",
        10 => "A",
        11 => "B",
        12 => "C",
        13 => "D",
        14 => "E",
        _ => "F",
    };
    assert(digit@ =~= seq![spec_hex_char(n)]);
    digit
}

/// Writes a colour as a hash sign and six upper-case hexadecimal digits.
pub fn color_to_hex(color: &Color) -> (hex: String)
    ensures
        hex@ == spec_color_to_hex(*color),
{
    proof {
        reveal_strlit("#");
    }
    let mut hex = String::from_str("#");
    hex.append(hex_char(color.r / 16));
    hex.append(hex_char(color.r % 16));
    hex.append(hex_char(color.g / 16));
    hex.append(hex_char(color.g % 16));
    hex.append(hex_char(color.b / 16));
    hex.append(hex_char(color.b % 16));
    assert(hex@ =~= spec_color_to_hex(*color));
    hex
}

/// Reading what was written gives the colour back.
pub proof fn lemma_hex_round_trip(color: Color)
    ensures
        spec_hex_to_color(spec_color_to_hex(color)) == Some(color),
{
    let hex = spec_color_to_hex(color);
    assert(hex.len() == 7);
    assert(vstd::utf8::is_ascii_chars(hex));
    assert(spec_hex_pair(hex[1] as u8, hex[2] as u8) == Some(color.r));
    assert(spec_hex_pair(hex[3] as u8, hex[4] as u8) == Some(color.g));
    assert(spec_hex_pair(hex[5] as u8, hex[6] as u8) == Some(color.b));
}

/// The colour `0xRRGGBB`.
pub fn rgb(value: u32) -> (color: Color)
    ensures
        color == spec_rgb(value),
{
    assert((value >> 16) & 0xff <= 0xff) by (bit_vector);
    assert((value >> 8) & 0xff <= 0xff) by (bit_vector);
    assert(value & 0xff <= 0xff) by (bit_vector);
    Color {
        r: ((value >> 16) & 0xff) as u8,
        g: ((value >> 8) & 0xff) as u8,
        b: (value & 0xff) as u8,
    }
}

/// The palette of ten colours, base first, then normal, then bright.
pub fn palette(colors: [u32; 10]) -> (palette: ColorPalette)
    ensures
        palette == spec_palette(colors@),
{
    ColorPalette {
        base: BaseColors { background: rgb(colors[0]), foreground: rgb(colors[1]) },
        normal: NormalColors {
            primary: rgb(colors[2]),
            secondary: rgb(colors[3]),
            surface: rgb(colors[4]),
            error: rgb(colors[5]),
        },
        bright: BrightColors {
            primary: rgb(colors[6]),
            secondary: rgb(colors[7]),
            surface: rgb(colors[8]),
            error: rgb(colors[9]),
        },
    }
}

impl Theme {
    /// The names of the built-in themes, in the order they are listed.
    pub open spec fn spec_names() -> Seq<Seq<char>> {
        seq![
            "Alliance"@,
            "Ayu"@,
            "Dark"@,
            "Dracula"@,
            "Ferra"@,
            "Forest Night"@,
            "Gruvbox"@,
            "Horde"@,
            "Light"@,
            "Nord"@,
            "One Dark"@,
            "Outrun"@,
            "Solarized Dark"@,
            "Solarized Light"@,
            "Sort"@,
        ]
    }

    /// The built-in themes, each under its name, in alphabetical order.
    pub fn all() -> (themes: Vec<(String, Theme)>)
        ensures
            themes@.len() == 15,
            forall|i: int|
                0 <= i < 15 ==> (#[trigger] themes@[i]).0@ == Self::spec_names()[i] && themes@[i].1.name@
                    == Self::spec_names()[i],
            themes@[0].1.palette == Self::spec_alliance(),
            themes@[1].1.palette == Self::spec_ayu(),
            themes@[2].1.palette == Self::spec_dark(),
            themes@[3].1.palette == Self::spec_dracula(),
            themes@[4].1.palette == Self::spec_ferra(),
            themes@[5].1.palette == Self::spec_forest_night(),
            themes@[6].1.palette == Self::spec_gruvbox(),
            themes@[7].1.palette == Self::spec_horde(),
            themes@[8].1.palette == Self::spec_light(),
            themes@[9].1.palette == Self::spec_nord(),
            themes@[10].1.palette == Self::spec_one_dark(),
            themes@[11].1.palette == Self::spec_outrun(),
            themes@[12].1.palette == Self::spec_solarized_dark(),
            themes@[13].1.palette == Self::spec_solarized_light(),
            themes@[14].1.palette == Self::spec_sort(),
    {
        let mut themes: Vec<(String, Theme)> = Vec::new();
        themes.push((String::from_str("Alliance"), Theme::alliance()));
        themes.push((String::from_str("Ayu"), Theme::ayu()));
        themes.push((String::from_str("Dark"), Theme::dark()));
        themes.push((String::from_str("Dracula"), Theme::dracula()));
        themes.push((String::from_str("Ferra"), Theme::ferra()));
        themes.push((String::from_str("Forest Night"), Theme::forest_night()));
        themes.push((String::from_str("Gruvbox"), Theme::gruvbox()));
        themes.push((String::from_str("Horde"), Theme::horde()));
        themes.push((String::from_str("Light"), Theme::light()));
        themes.push((String::from_str("Nord"), Theme::nord()));
        themes.push((String::from_str("One Dark"), Theme::one_dark()));
        themes.push((String::from_str("Outrun"), Theme::outrun()));
        themes.push((String::from_str("Solarized Dark"), Theme::solarized_dark()));
        themes.push((String::from_str("Solarized Light"), Theme::solarized_light()));
        themes.push((String::from_str("Sort"), Theme::sort()));
        themes
    }

    /// The palette of the theme `Dark`.
    pub open spec fn spec_dark() -> ColorPalette {
        spec_palette(
            seq![
                0x111111, 0x1c1c1c, 0x3f2b56, 0x4a3c1c, 0x828282,
                0x992b2b, 0xba84fc, 0xffd03c, 0xe0e0e0, 0xc13047,
            ],
        )
    }

    /// The theme `Dark`.
    pub fn dark() -> (theme: Theme)
        ensures
            theme.name@ == "Dark"@,
            theme.palette == Self::spec_dark(),
    {
        Theme {
            name: String::from_str("Dark"),
            palette: palette(
                [
                    0x111111, 0x1c1c1c, 0x3f2b56, 0x4a3c1c, 0x828282,
                    0x992b2b, 0xba84fc, 0xffd03c, 0xe0e0e0, 0xc13047,
                ],
            ),
        }
    }

    /// The palette of the theme `Light`.
    pub open spec fn spec_light() -> ColorPalette {
        spec_palette(
            seq![
                0xffffff, 0xf5f5f5, 0xdfdbff, 0xf9d659, 0x828282,
                0x992b2b, 0x9580ff, 0xeaa326, 0x000000, 0xc13047,
            ],
        )
    }

    /// The theme `Light`.
    pub fn light() -> (theme: Theme)
        ensures
            theme.name@ == "Light"@,
            theme.palette == Self::spec_light(),
    {
        Theme {
            name: String::from_str("Light"),
            palette: palette(
                [
                    0xffffff, 0xf5f5f5, 0xdfdbff, 0xf9d659, 0x828282,
                    0x992b2b, 0x9580ff, 0xeaa326, 0x000000, 0xc13047,
                ],
            ),
        }
    }

    /// The palette of the theme `Alliance`.
    pub open spec fn spec_alliance() -> ColorPalette {
        spec_palette(
            seq![
                0x011930, 0x022242, 0x3e3523, 0x3e3523, 0x7f8387,
                0x5b3a5e, 0xac8a1b, 0xac8a1b, 0xb4b9bf, 0x953e43,
            ],
        )
    }

    /// The theme `Alliance`.
    pub fn alliance() -> (theme: Theme)
        ensures
            theme.name@ == "Alliance"@,
            theme.palette == Self::spec_alliance(),
    {
        Theme {
            name: String::from_str("Alliance"),
            palette: palette(
                [
                    0x011930, 0x022242, 0x3e3523, 0x3e3523, 0x7f8387,
                    0x5b3a5e, 0xac8a1b, 0xac8a1b, 0xb4b9bf, 0x953e43,
                ],
            ),
        }
    }

    /// The palette of the theme `Horde`.
    pub open spec fn spec_horde() -> ColorPalette {
        spec_palette(
            seq![
                0x161313, 0x211c1c, 0x331e1f, 0x542a18, 0x5e5b5a,
                0x44282a, 0x953e43, 0xe27342, 0x9b9897, 0x953e43,
            ],
        )
    }

    /// The theme `Horde`.
    pub fn horde() -> (theme: Theme)
        ensures
            theme.name@ == "Horde"@,
            theme.palette == Self::spec_horde(),
    {
        Theme {
            name: String::from_str("Horde"),
            palette: palette(
                [
                    0x161313, 0x211c1c, 0x331e1f, 0x542a18, 0x5e5b5a,
                    0x44282a, 0x953e43, 0xe27342, 0x9b9897, 0x953e43,
                ],
            ),
        }
    }

    /// The palette of the theme `Ayu`.
    pub open spec fn spec_ayu() -> ColorPalette {
        spec_palette(
            seq![
                0x1f2430, 0x232834, 0x987a47, 0x315e6b, 0x60697a,
                0x712a34, 0xffcc66, 0x5ccfe6, 0xcbccc6, 0xff3333,
            ],
        )
    }

    /// The theme `Ayu`.
    pub fn ayu() -> (theme: Theme)
        ensures
            theme.name@ == "Ayu"@,
            theme.palette == Self::spec_ayu(),
    {
        Theme {
            name: String::from_str("Ayu"),
            palette: palette(
                [
                    0x1f2430, 0x232834, 0x987a47, 0x315e6b, 0x60697a,
                    0x712a34, 0xffcc66, 0x5ccfe6, 0xcbccc6, 0xff3333,
                ],
            ),
        }
    }

    /// The palette of the theme `Dracula`.
    pub open spec fn spec_dracula() -> ColorPalette {
        spec_palette(
            seq![
                0x282a36, 0x353746, 0x483e61, 0x386e50, 0xa2a4a3,
                0xa13034, 0xbd94f9, 0x49eb7a, 0xf4f8f3, 0xff7ac6,
            ],
        )
    }

    /// The theme `Dracula`.
    pub fn dracula() -> (theme: Theme)
        ensures
            theme.name@ == "Dracula"@,
            theme.palette == Self::spec_dracula(),
    {
        Theme {
            name: String::from_str("Dracula"),
            palette: palette(
                [
                    0x282a36, 0x353746, 0x483e61, 0x386e50, 0xa2a4a3,
                    0xa13034, 0xbd94f9, 0x49eb7a, 0xf4f8f3, 0xff7ac6,
                ],
            ),
        }
    }

    /// The palette of the theme `Forest Night`.
    pub open spec fn spec_forest_night() -> ColorPalette {
        spec_palette(
            seq![
                0x323d43, 0x3c474d, 0x505a60, 0x465258, 0x999f93,
                0x74484c, 0xa7c080, 0x83b6af, 0xd8caac, 0xe68183,
            ],
        )
    }

    /// The theme `Forest Night`.
    pub fn forest_night() -> (theme: Theme)
        ensures
            theme.name@ == "Forest Night"@,
            theme.palette == Self::spec_forest_night(),
    {
        Theme {
            name: String::from_str("Forest Night"),
            palette: palette(
                [
                    0x323d43, 0x3c474d, 0x505a60, 0x465258, 0x999f93,
                    0x74484c, 0xa7c080, 0x83b6af, 0xd8caac, 0xe68183,
                ],
            ),
        }
    }

    /// The palette of the theme `Gruvbox`.
    pub open spec fn spec_gruvbox() -> ColorPalette {
        spec_palette(
            seq![
                0x282828, 0x3c3836, 0x63612f, 0x695133, 0x928374,
                0x81302e, 0x98971a, 0xd79921, 0xebdbb2, 0xcc241d,
            ],
        )
    }

    /// The theme `Gruvbox`.
    pub fn gruvbox() -> (theme: Theme)
        ensures
            theme.name@ == "Gruvbox"@,
            theme.palette == Self::spec_gruvbox(),
    {
        Theme {
            name: String::from_str("Gruvbox"),
            palette: palette(
                [
                    0x282828, 0x3c3836, 0x63612f, 0x695133, 0x928374,
                    0x81302e, 0x98971a, 0xd79921, 0xebdbb2, 0xcc241d,
                ],
            ),
        }
    }

    /// The palette of the theme `Nord`.
    pub open spec fn spec_nord() -> ColorPalette {
        spec_palette(
            seq![
                0x2e3440, 0x3b4252, 0x485b60, 0x425066, 0x9196a1,
                0x894f5a, 0x8fbcbb, 0x5e81ac, 0xeceff4, 0xbf616a,
            ],
        )
    }

    /// The theme `Nord`.
    pub fn nord() -> (theme: Theme)
        ensures
            theme.name@ == "Nord"@,
            theme.palette == Self::spec_nord(),
    {
        Theme {
            name: String::from_str("Nord"),
            palette: palette(
                [
                    0x2e3440, 0x3b4252, 0x485b60, 0x425066, 0x9196a1,
                    0x894f5a, 0x8fbcbb, 0x5e81ac, 0xeceff4, 0xbf616a,
                ],
            ),
        }
    }

    /// The palette of the theme `Outrun`.
    pub open spec fn spec_outrun() -> ColorPalette {
        spec_palette(
            seq![
                0x0d0821, 0x110a2b, 0x330442, 0x6e3e2e, 0x484e81,
                0x671a30, 0xff00ff, 0xff963a, 0x757dc8, 0xdb2c3e,
            ],
        )
    }

    /// The theme `Outrun`.
    pub fn outrun() -> (theme: Theme)
        ensures
            theme.name@ == "Outrun"@,
            theme.palette == Self::spec_outrun(),
    {
        Theme {
            name: String::from_str("Outrun"),
            palette: palette(
                [
                    0x0d0821, 0x110a2b, 0x330442, 0x6e3e2e, 0x484e81,
                    0x671a30, 0xff00ff, 0xff963a, 0x757dc8, 0xdb2c3e,
                ],
            ),
        }
    }

    /// The palette of the theme `Solarized Dark`.
    pub open spec fn spec_solarized_dark() -> ColorPalette {
        spec_palette(
            seq![
                0x012b36, 0x093642, 0x1a615b, 0x523f09, 0x63797e,
                0xb80f15, 0x2aa096, 0xa37f12, 0x93a1a1, 0xee2f36,
            ],
        )
    }

    /// The theme `Solarized Dark`.
    pub fn solarized_dark() -> (theme: Theme)
        ensures
            theme.name@ == "Solarized Dark"@,
            theme.palette == Self::spec_solarized_dark(),
    {
        Theme {
            name: String::from_str("Solarized Dark"),
            palette: palette(
                [
                    0x012b36, 0x093642, 0x1a615b, 0x523f09, 0x63797e,
                    0xb80f15, 0x2aa096, 0xa37f12, 0x93a1a1, 0xee2f36,
                ],
            ),
        }
    }

    /// The palette of the theme `Solarized Light`.
    pub open spec fn spec_solarized_light() -> ColorPalette {
        spec_palette(
            seq![
                0xfdf6e3, 0xeee8d5, 0xbcccc3, 0xccbd9e, 0x95a3a2,
                0xb80f15, 0x2aa096, 0xa37f12, 0x4c5d63, 0xee2f36,
            ],
        )
    }

    /// The theme `Solarized Light`.
    pub fn solarized_light() -> (theme: Theme)
        ensures
            theme.name@ == "Solarized Light"@,
            theme.palette == Self::spec_solarized_light(),
    {
        Theme {
            name: String::from_str("Solarized Light"),
            palette: palette(
                [
                    0xfdf6e3, 0xeee8d5, 0xbcccc3, 0xccbd9e, 0x95a3a2,
                    0xb80f15, 0x2aa096, 0xa37f12, 0x4c5d63, 0xee2f36,
                ],
            ),
        }
    }

    /// The palette of the theme `Sort`.
    pub open spec fn spec_sort() -> ColorPalette {
        spec_palette(
            seq![
                0x000000, 0x101010, 0x525252, 0x525252, 0x525252,
                0x525252, 0xa3a3a3, 0xa3a3a3, 0xa3a3a3, 0xa3a3a3,
            ],
        )
    }

    /// The theme `Sort`.
    pub fn sort() -> (theme: Theme)
        ensures
            theme.name@ == "Sort"@,
            theme.palette == Self::spec_sort(),
    {
        Theme {
            name: String::from_str("Sort"),
            palette: palette(
                [
                    0x000000, 0x101010, 0x525252, 0x525252, 0x525252,
                    0x525252, 0xa3a3a3, 0xa3a3a3, 0xa3a3a3, 0xa3a3a3,
                ],
            ),
        }
    }

    /// The palette of the theme `Ferra`.
    pub open spec fn spec_ferra() -> ColorPalette {
        spec_palette(
            seq![
                0x211f22, 0x2b292d, 0x664a50, 0x855859, 0x816961,
                0x713f47, 0xb4838d, 0xe5989b, 0xfecdb2, 0xe06b75,
            ],
        )
    }

    /// The theme `Ferra`.
    pub fn ferra() -> (theme: Theme)
        ensures
            theme.name@ == "Ferra"@,
            theme.palette == Self::spec_ferra(),
    {
        Theme {
            name: String::from_str("Ferra"),
            palette: palette(
                [
                    0x211f22, 0x2b292d, 0x664a50, 0x855859, 0x816961,
                    0x713f47, 0xb4838d, 0xe5989b, 0xfecdb2, 0xe06b75,
                ],
            ),
        }
    }

    /// The palette of the theme `One Dark`.
    pub open spec fn spec_one_dark() -> ColorPalette {
        spec_palette(
            seq![
                0x282c34, 0x2c323c, 0x385c7c, 0x654473, 0x5b626e,
                0x713f47, 0x61afef, 0xc679dd, 0xa6adba, 0xe06b75,
            ],
        )
    }

    /// The theme `One Dark`.
    pub fn one_dark() -> (theme: Theme)
        ensures
            theme.name@ == "One Dark"@,
            theme.palette == Self::spec_one_dark(),
    {
        Theme {
            name: String::from_str("One Dark"),
            palette: palette(
                [
                    0x282c34, 0x2c323c, 0x385c7c, 0x654473, 0x5b626e,
                    0x713f47, 0x61afef, 0xc679dd, 0xa6adba, 0xe06b75,
                ],
            ),
        }
    }
}

} // verus!
