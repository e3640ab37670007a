use grin_gui::theme::{
    color_to_hex, hex_to_color, palette, rgb, BaseColors, BrightColors, Color, ColorPalette,
    NormalColors, Theme,
};

#[test]
fn test_hex_color_deser() {
    let colors = [
        "AABBCC", "AABBCG", "#AABBCG", "#AABB091", "#AABBCC", "#AABB09",
    ];

    for (idx, color_str) in colors.iter().enumerate() {
        let color = hex_to_color(color_str);

        if idx < 4 {
            assert!(color.is_none());
        } else {
            assert!(color.is_some());
        }
    }
}

fn channel(value: f32) -> u8 {
    (value * 255.0) as u8
}

#[test]
fn test_hex_color_ser() {
    let color = NormalColors {
        primary: Color { r: channel(1.0), g: channel(1.0), b: channel(1.0) },
        secondary: Color { r: channel(0.5), g: channel(0.6), b: channel(0.75789) },
        surface: Color { r: channel(0.1), g: channel(0.2), b: channel(0.3) },
        error: Color { r: channel(0.0), g: channel(0.0), b: channel(0.0) },
    };

    assert_eq!(color_to_hex(&color.primary), "#FFFFFF");
    assert_eq!(color_to_hex(&color.secondary), "#7F99C1");
    assert_eq!(color_to_hex(&color.surface), "#19334C");
    assert_eq!(color_to_hex(&color.error), "#000000");
}

#[test]
fn a_theme_built_from_hex_colours() {
    let text = "#484793";
    let color = hex_to_color(text).unwrap();
    let theme = Theme {
        name: "Test".to_string(),
        palette: ColorPalette {
            base: BaseColors { background: color, foreground: color },
            normal: NormalColors { primary: color, secondary: color, surface: color, error: color },
            bright: BrightColors { primary: color, secondary: color, surface: color, error: color },
        },
    };
    assert_eq!(theme.name, "Test");
    assert_eq!(theme.palette.bright.error, Color { r: 0x48, g: 0x47, b: 0x93 });
}

#[test]
fn hex_colours_read_in_either_case() {
    assert_eq!(hex_to_color("#AABBCC"), Some(Color { r: 0xaa, g: 0xbb, b: 0xcc }));
    assert_eq!(hex_to_color("#aabbcc"), Some(Color { r: 0xaa, g: 0xbb, b: 0xcc }));
    assert_eq!(hex_to_color("#AABB09"), Some(Color { r: 0xaa, g: 0xbb, b: 0x09 }));
    assert_eq!(hex_to_color("#000000"), Some(Color { r: 0, g: 0, b: 0 }));
    assert_eq!(hex_to_color("#ffFFff"), Some(Color { r: 255, g: 255, b: 255 }));
    assert_eq!(hex_to_color("#3f2b56"), Some(Color { r: 0x3f, g: 0x2b, b: 0x56 }));
}

#[test]
fn a_plus_sign_may_stand_for_the_first_digit() {
    assert_eq!(hex_to_color("#+A+B+C"), Some(Color { r: 10, g: 11, b: 12 }));
    assert_eq!(
        hex_to_color("#+A+B+C").map(|c| c.r),
        u8::from_str_radix("+A", 16).ok()
    );
    assert_eq!(hex_to_color("#++0000"), None);
    assert_eq!(hex_to_color("#A+0000"), None);
    assert_eq!(hex_to_color("#-10000"), None);
}

#[test]
fn texts_that_are_no_colours() {
    for text in ["", "#", "AABBCC", "#AABBC", "#AABBCCD", "#GGGGGG", " #AABBC", "#AABB C", "#AA_BCC"] {
        assert_eq!(hex_to_color(text), None, "{}", text);
    }
    assert_eq!(hex_to_color("#AABB\u{e9}"), None);
    assert_eq!(hex_to_color("\u{e9}AABBC"), None);
    assert_eq!(hex_to_color("#\u{ff21}\u{ff21}"), None);
}

#[test]
fn every_pair_of_digits_agrees_with_the_standard_library() {
    let digits = "0123456789abcdefABCDEF+-gG _";
    for high in digits.chars() {
        for low in digits.chars() {
            let text = format!("#{}{}0000", high, low);
            let pair = format!("{}{}", high, low);
            assert_eq!(
                hex_to_color(&text).map(|c| c.r),
                u8::from_str_radix(&pair, 16).ok(),
                "{}",
                text
            );
        }
    }
}

#[test]
fn writing_and_reading_a_colour_gives_it_back() {
    for r in [0u8, 1, 9, 10, 15, 16, 127, 128, 254, 255] {
        for g in [0u8, 7, 200, 255] {
            for b in [0u8, 99, 255] {
                let color = Color { r, g, b };
                let text = color_to_hex(&color);
                assert_eq!(text.len(), 7);
                assert_eq!(text, format!("#{:02X}{:02X}{:02X}", r, g, b));
                assert_eq!(hex_to_color(&text), Some(color));
            }
        }
    }
}

#[test]
fn rgb_splits_the_channels() {
    assert_eq!(rgb(0x111111), Color { r: 0x11, g: 0x11, b: 0x11 });
    assert_eq!(rgb(0x3f2b56), Color { r: 0x3f, g: 0x2b, b: 0x56 });
    assert_eq!(rgb(0xff3f2b56), Color { r: 0x3f, g: 0x2b, b: 0x56 });
    let p = palette([1, 2, 3, 4, 5, 6, 7, 8, 9, 10]);
    assert_eq!(p.base.background.b, 1);
    assert_eq!(p.base.foreground.b, 2);
    assert_eq!(p.normal.primary.b, 3);
    assert_eq!(p.normal.secondary.b, 4);
    assert_eq!(p.normal.surface.b, 5);
    assert_eq!(p.normal.error.b, 6);
    assert_eq!(p.bright.primary.b, 7);
    assert_eq!(p.bright.secondary.b, 8);
    assert_eq!(p.bright.surface.b, 9);
    assert_eq!(p.bright.error.b, 10);
}

fn hexes(theme: &Theme) -> Vec<String> {
    let p = &theme.palette;
    vec![
        color_to_hex(&p.base.background),
        color_to_hex(&p.base.foreground),
        color_to_hex(&p.normal.primary),
        color_to_hex(&p.normal.secondary),
        color_to_hex(&p.normal.surface),
        color_to_hex(&p.normal.error),
        color_to_hex(&p.bright.primary),
        color_to_hex(&p.bright.secondary),
        color_to_hex(&p.bright.surface),
        color_to_hex(&p.bright.error),
    ]
}

#[test]
fn the_dark_theme() {
    let theme = Theme::dark();
    assert_eq!(theme.name, "Dark");
    assert_eq!(
        hexes(&theme),
        vec![
            "#111111", "#1C1C1C", "#3F2B56", "#4A3C1C", "#828282", "#992B2B", "#BA84FC", "#FFD03C",
            "#E0E0E0", "#C13047"
        ]
    );
}

#[test]
fn the_light_and_ferra_themes() {
    assert_eq!(
        hexes(&Theme::light()),
        vec![
            "#FFFFFF", "#F5F5F5", "#DFDBFF", "#F9D659", "#828282", "#992B2B", "#9580FF", "#EAA326",
            "#000000", "#C13047"
        ]
    );
    assert_eq!(
        hexes(&Theme::ferra()),
        vec![
            "#211F22", "#2B292D", "#664A50", "#855859", "#816961", "#713F47", "#B4838D", "#E5989B",
            "#FECDB2", "#E06B75"
        ]
    );
    assert_eq!(Theme::one_dark().palette.bright.primary, Color { r: 0x61, g: 0xaf, b: 0xef });
    assert_eq!(Theme::sort().palette.normal.error, Color { r: 0x52, g: 0x52, b: 0x52 });
}

#[test]
fn all_themes_are_listed_by_name() {
    let all = Theme::all();
    let names: Vec<&str> = all.iter().map(|t| t.0.as_str()).collect();
    assert_eq!(
        names,
        vec![
            "Alliance", "Ayu", "Dark", "Dracula", "Ferra", "Forest Night", "Gruvbox", "Horde",
            "Light", "Nord", "One Dark", "Outrun", "Solarized Dark", "Solarized Light", "Sort"
        ]
    );
    for (name, theme) in all.iter() {
        assert_eq!(*name, theme.name);
    }
    assert_eq!(all[2].1.palette, Theme::dark().palette);
    assert_eq!(all[7].1.palette, Theme::horde().palette);
    assert_eq!(all[14].1.palette, Theme::sort().palette);
    assert_eq!(all[0].1.palette, Theme::alliance().palette);
    assert_eq!(all[1].1.palette, Theme::ayu().palette);
    assert_eq!(all[3].1.palette, Theme::dracula().palette);
    assert_eq!(all[5].1.palette, Theme::forest_night().palette);
    assert_eq!(all[6].1.palette, Theme::gruvbox().palette);
    assert_eq!(all[9].1.palette, Theme::nord().palette);
    assert_eq!(all[11].1.palette, Theme::outrun().palette);
    assert_eq!(all[12].1.palette, Theme::solarized_dark().palette);
    assert_eq!(all[13].1.palette, Theme::solarized_light().palette);
}

#[test]
fn themes_are_equal_by_name() {
    let mut other = Theme::dark();
    other.palette = Theme::light().palette;
    assert!(other == Theme::dark());
    assert!(Theme::dark() != Theme::light());
}
