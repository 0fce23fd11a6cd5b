use atuin_theme::color::{from_string, Color, Style};
use atuin_theme::meaning::Meaning;
use atuin_theme::meaning_map::MeaningMap;
use atuin_theme::theme::{builtin_theme, default_theme, known_color, load_theme, make_theme, warning_line, Theme};

const ALL: [Meaning; 8] = [
    Meaning::AlertInfo,
    Meaning::AlertWarn,
    Meaning::AlertError,
    Meaning::Annotation,
    Meaning::Base,
    Meaning::Guidance,
    Meaning::Important,
    Meaning::Title,
];

fn rgb(r: u8, g: u8, b: u8) -> Color {
    Color::Rgb { r, g, b }
}

fn names(pairs: &[(Meaning, &str)]) -> MeaningMap<String> {
    let mut map = MeaningMap::new();
    for (role, text) in pairs {
        map.insert(*role, text.to_string());
    }
    map
}

fn color_of(theme: &Theme, role: Meaning) -> Option<Color> {
    theme.colors.get(role).copied()
}

#[test]
fn a_map_binds_and_rebinds() {
    let mut map: MeaningMap<u32> = MeaningMap::new();
    for role in ALL {
        assert!(!map.contains_key(role));
        assert_eq!(map.get(role), None);
    }
    map.insert(Meaning::Base, 1);
    map.insert(Meaning::Title, 2);
    map.insert(Meaning::Base, 3);
    assert_eq!(map.get(Meaning::Base), Some(&3));
    assert_eq!(map.get(Meaning::Title), Some(&2));
    assert!(map.contains_key(Meaning::Base));
    assert!(!map.contains_key(Meaning::Guidance));
}

#[test]
fn the_defaults_colour_seven_roles() {
    let theme = default_theme();
    assert_eq!(color_of(&theme, Meaning::AlertError), Some(Color::Red));
    assert_eq!(color_of(&theme, Meaning::AlertWarn), Some(Color::Yellow));
    assert_eq!(color_of(&theme, Meaning::AlertInfo), Some(Color::Green));
    assert_eq!(color_of(&theme, Meaning::Annotation), Some(Color::DarkGrey));
    assert_eq!(color_of(&theme, Meaning::Guidance), Some(Color::Blue));
    assert_eq!(color_of(&theme, Meaning::Important), Some(Color::White));
    assert_eq!(color_of(&theme, Meaning::Base), Some(Color::Grey));
    assert_eq!(color_of(&theme, Meaning::Title), None);
}

#[test]
fn the_closest_role_is_the_role_itself_where_it_has_a_colour() {
    let theme = default_theme();
    for role in ALL {
        if role != Meaning::Title {
            assert_eq!(theme.closest_meaning(&role), role);
        }
    }
    assert_eq!(theme.closest_meaning(&Meaning::Title), Meaning::Important);
}

#[test]
fn the_closest_role_follows_the_fallback_graph() {
    let mut colors = MeaningMap::new();
    colors.insert(Meaning::AlertInfo, Color::Green);
    let theme = Theme::new(colors);
    assert_eq!(theme.closest_meaning(&Meaning::Guidance), Meaning::AlertInfo);
    assert_eq!(theme.closest_meaning(&Meaning::Annotation), Meaning::AlertInfo);
    assert_eq!(theme.closest_meaning(&Meaning::AlertInfo), Meaning::AlertInfo);
    // The path from Title leads to Important, which has no colour and no edge.
    assert_eq!(theme.closest_meaning(&Meaning::Title), Meaning::Base);
    assert_eq!(theme.closest_meaning(&Meaning::AlertWarn), Meaning::Base);
}

#[test]
fn an_empty_theme_resolves_every_role_to_base() {
    let theme = Theme::new(MeaningMap::new());
    for role in ALL {
        assert_eq!(theme.closest_meaning(&role), Meaning::Base);
    }
}

#[test]
fn a_style_sets_the_foreground_and_nothing_else() {
    let theme = default_theme();
    assert_eq!(
        theme.as_style(Meaning::Guidance),
        Style {
            foreground_color: Some(Color::Blue),
            background_color: None,
            underline_color: None,
        }
    );
}

#[test]
fn the_foreground_of_every_style_is_a_colour_of_the_theme() {
    for name in ["", "autumn", "marine"] {
        let theme = builtin_theme(name).unwrap();
        for role in ALL {
            let foreground = theme.as_style(role).foreground_color;
            assert!(foreground.is_some());
            assert!(ALL.iter().any(|other| color_of(&theme, *other) == foreground));
        }
    }
}

#[test]
fn layering_overrides_and_keeps() {
    let mut overrides = MeaningMap::new();
    overrides.insert(Meaning::Base, rgb(1, 2, 3));
    overrides.insert(Meaning::Title, rgb(4, 5, 6));
    let theme = make_theme(&overrides);
    assert_eq!(color_of(&theme, Meaning::Base), Some(rgb(1, 2, 3)));
    assert_eq!(color_of(&theme, Meaning::Title), Some(rgb(4, 5, 6)));
    assert_eq!(color_of(&theme, Meaning::AlertError), Some(Color::Red));
    assert_eq!(color_of(&theme, Meaning::AlertWarn), Some(Color::Yellow));
    assert_eq!(color_of(&theme, Meaning::AlertInfo), Some(Color::Green));
    assert_eq!(color_of(&theme, Meaning::Annotation), Some(Color::DarkGrey));
    assert_eq!(color_of(&theme, Meaning::Guidance), Some(Color::Blue));
    assert_eq!(color_of(&theme, Meaning::Important), Some(Color::White));
}

#[test]
fn building_from_guidance_white_and_a_colour_that_is_none() {
    let (theme, warnings) = Theme::from_map(
        names(&[(Meaning::Guidance, "white"), (Meaning::AlertInfo, "zomp")]),
        false,
    );
    assert!(warnings.is_empty());
    assert_eq!(theme.as_style(Meaning::Guidance).foreground_color, Some(rgb(255, 255, 255)));
    assert_eq!(theme.as_style(Meaning::AlertInfo).foreground_color, Some(Color::Grey));
    assert_eq!(theme.as_style(Meaning::AlertError).foreground_color, Some(Color::Red));
    assert_eq!(
        theme.as_style(Meaning::Title).foreground_color,
        theme.as_style(Meaning::Important).foreground_color
    );
    assert_eq!(theme.as_style(Meaning::Title).foreground_color, Some(Color::White));
}

#[test]
fn building_from_title_white_and_a_colour_that_is_none() {
    let (theme, _) = Theme::from_map(
        names(&[(Meaning::Title, "white"), (Meaning::AlertInfo, "zomp")]),
        false,
    );
    assert_eq!(color_of(&theme, Meaning::Title), from_string("white").ok());
    assert_eq!(theme.closest_meaning(&Meaning::Title), Meaning::Title);
    assert_eq!(theme.as_style(Meaning::Title).foreground_color, Some(rgb(255, 255, 255)));
    assert_eq!(theme.as_style(Meaning::Guidance).foreground_color, Some(Color::Blue));
}

#[test]
fn the_builder_gives_each_role_its_own_string_or_its_default() {
    let given = [
        (Meaning::AlertError, "#010203"),
        (Meaning::Guidance, "no such colour"),
        (Meaning::Title, ""),
        (Meaning::Base, "teal"),
    ];
    let (theme, _) = Theme::from_map(names(&given), false);
    let defaults = default_theme();
    for role in ALL {
        let expected = match given.iter().find(|(other, _)| *other == role) {
            Some((_, text)) => Some(from_string(text).unwrap_or(Color::Grey)),
            None => color_of(&defaults, role),
        };
        assert_eq!(color_of(&theme, role), expected, "for {:?}", role);
    }
    assert_eq!(color_of(&theme, Meaning::AlertError), Some(rgb(1, 2, 3)));
    assert_eq!(color_of(&theme, Meaning::Guidance), Some(Color::Grey));
    assert_eq!(color_of(&theme, Meaning::Title), Some(Color::Grey));
    assert_eq!(color_of(&theme, Meaning::Base), Some(rgb(0, 128, 128)));
}

#[test]
fn one_bad_string_leaves_the_other_roles_alone() {
    let (good, _) = Theme::from_map(names(&[(Meaning::Base, "teal")]), false);
    let (mixed, _) = Theme::from_map(
        names(&[(Meaning::Base, "teal"), (Meaning::AlertWarn, "#zz")]),
        false,
    );
    for role in ALL {
        if role != Meaning::AlertWarn {
            assert_eq!(color_of(&mixed, role), color_of(&good, role));
        }
    }
}

#[test]
fn warnings_come_with_debug_only_and_in_the_order_of_the_roles() {
    let given = [
        (Meaning::Title, "#12"),
        (Meaning::Guidance, "white"),
        (Meaning::AlertInfo, "xinetic"),
        (Meaning::Base, ""),
    ];
    let (_, quiet) = Theme::from_map(names(&given), false);
    assert!(quiet.is_empty());
    let (_, loud) = Theme::from_map(names(&given), true);
    assert_eq!(
        loud,
        vec![
            "Could not load theme color: No such color in palette -> xinetic".to_string(),
            "Could not load theme color: Empty string -> ".to_string(),
            "Could not load theme color: Could not parse 3 hex values from string -> #12".to_string(),
        ]
    );
}

#[test]
fn a_warning_names_the_reason_and_the_string() {
    assert_eq!(
        warning_line("No such color in palette", "xinetic"),
        "Could not load theme color: No such color in palette -> xinetic"
    );
}

#[test]
fn autumn_lays_five_colours_over_the_defaults() {
    let theme = builtin_theme("autumn").unwrap();
    assert_eq!(color_of(&theme, Meaning::AlertError), Some(rgb(139, 69, 19)));
    assert_eq!(color_of(&theme, Meaning::AlertWarn), Some(rgb(255, 140, 0)));
    assert_eq!(color_of(&theme, Meaning::AlertInfo), Some(rgb(255, 215, 0)));
    assert_eq!(color_of(&theme, Meaning::Annotation), Some(Color::DarkGrey));
    assert_eq!(color_of(&theme, Meaning::Guidance), Some(rgb(165, 42, 42)));
    assert_eq!(color_of(&theme, Meaning::Important), Some(Color::White));
    assert_eq!(color_of(&theme, Meaning::Base), Some(Color::Grey));
    assert_eq!(color_of(&theme, Meaning::Title), None);
    assert_eq!(color_of(&theme, Meaning::AlertError), from_string("saddlebrown").ok());
    assert_eq!(color_of(&theme, Meaning::AlertWarn), from_string("darkorange").ok());
    assert_eq!(color_of(&theme, Meaning::AlertInfo), from_string("gold").ok());
    assert_eq!(color_of(&theme, Meaning::Guidance), from_string("brown").ok());
}

#[test]
fn marine_lays_six_colours_over_the_defaults() {
    let theme = builtin_theme("marine").unwrap();
    assert_eq!(color_of(&theme, Meaning::AlertError), Some(rgb(154, 205, 50)));
    assert_eq!(color_of(&theme, Meaning::AlertWarn), Some(rgb(0, 255, 255)));
    assert_eq!(color_of(&theme, Meaning::AlertInfo), Some(rgb(64, 224, 208)));
    assert_eq!(color_of(&theme, Meaning::Annotation), Some(rgb(70, 130, 180)));
    assert_eq!(color_of(&theme, Meaning::Base), Some(rgb(176, 196, 222)));
    assert_eq!(color_of(&theme, Meaning::Guidance), Some(rgb(0, 128, 128)));
    assert_eq!(color_of(&theme, Meaning::Important), Some(Color::White));
    assert_eq!(color_of(&theme, Meaning::Title), None);
    assert_eq!(color_of(&theme, Meaning::AlertError), from_string("yellowgreen").ok());
    assert_eq!(color_of(&theme, Meaning::AlertWarn), from_string("cyan").ok());
    assert_eq!(color_of(&theme, Meaning::AlertInfo), from_string("turquoise").ok());
    assert_eq!(color_of(&theme, Meaning::Annotation), from_string("steelblue").ok());
    assert_eq!(color_of(&theme, Meaning::Base), from_string("lightsteelblue").ok());
    assert_eq!(color_of(&theme, Meaning::Guidance), from_string("teal").ok());
}

#[test]
fn the_empty_name_is_the_default_theme() {
    assert_eq!(builtin_theme(""), Some(default_theme()));
}

#[test]
fn other_names_are_not_built_in() {
    for name in ["Autumn", "winter", " ", "autumn ", "marine.toml"] {
        assert_eq!(builtin_theme(name), None, "for {:?}", name);
    }
}

#[test]
fn loading_by_name_alone_gives_a_built_in_theme_or_the_defaults() {
    assert_eq!(load_theme("autumn"), builtin_theme("autumn").unwrap());
    assert_eq!(load_theme("marine"), builtin_theme("marine").unwrap());
    assert_eq!(load_theme(""), default_theme());
    assert_eq!(load_theme("winter"), default_theme());
}

#[test]
fn a_known_colour_is_its_triple() {
    assert_eq!(known_color("brown"), rgb(165, 42, 42));
    assert_eq!(known_color("teal"), rgb(0, 128, 128));
}

#[test]
fn the_getters_read_the_alert_roles_and_base() {
    let theme = builtin_theme("marine").unwrap();
    assert_eq!(theme.get_base(), rgb(176, 196, 222));
    assert_eq!(theme.get_info(), rgb(64, 224, 208));
    assert_eq!(theme.get_warning(), rgb(0, 255, 255));
    assert_eq!(theme.get_error(), rgb(154, 205, 50));
}
