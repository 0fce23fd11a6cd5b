//! Themes: partial maps from roles to colours, the resolver that makes them
//! total through the fallback graph, the builder that layers colour strings
//! over the defaults, and the built-in themes.

use vstd::prelude::*;
use crate::color::{from_string, listed_color, listed_colors, parse_color, Color, Style};
use crate::meaning::{fallback_descends, Level, Meaning, MEANING_COUNT};
use crate::meaning_map::MeaningMap;
use crate::text::{owned, same_text};

verus! {

/// A mapping from roles to colours. Not every role needs a colour: the
/// resolver finds one through the fallback graph.
#[derive(Clone, Copy, Debug, PartialEq, Eq)]
pub struct Theme {
    pub colors: MeaningMap<Color>,
}

impl View for Theme {
    type V = Map<Meaning, Color>;

    open spec fn view(&self) -> Map<Meaning, Color> {
        self.colors@
    }
}

/// The role whose colour stands for `role`: the role itself where the theme
/// colours it, else what its edge of the fallback graph leads to, else `Base`.
pub open spec fn closest(colors: Map<Meaning, Color>, role: Meaning) -> Meaning
    decreases role.fallback_depth(),
{
    if colors.contains_key(role) {
        role
    } else {
        match role.spec_fallback() {
            Some(next) => closest(colors, next),
            None => Meaning::Base,
        }
    }
}

/// The style whose foreground is `color` and which sets nothing else.
pub open spec fn foreground(color: Color) -> Style {
    Style { foreground_color: Some(color), background_color: None, underline_color: None }
}

/// The colour that a role has where no theme says otherwise.
pub open spec fn default_color(role: Meaning) -> Option<Color> {
    match role {
        Meaning::AlertError => Some(Color::Red),
        Meaning::AlertWarn => Some(Color::Yellow),
        Meaning::AlertInfo => Some(Color::Green),
        Meaning::Annotation => Some(Color::DarkGrey),
        Meaning::Guidance => Some(Color::Blue),
        Meaning::Important => Some(Color::White),
        Meaning::Base => Some(Color::Grey),
        Meaning::Title => None,
    }
}

/// The defaults as a map: seven roles, `Title` not among them.
pub open spec fn default_colors() -> Map<Meaning, Color> {
    Map::new(|role: Meaning| default_color(role) is Some, |role: Meaning| default_color(role)->0)
}

/// The defaults with a partial map laid over them: a role of `overrides` has
/// its colour from there, any other role keeps its default.
pub open spec fn layered(overrides: Map<Meaning, Color>) -> Map<Meaning, Color> {
    default_colors().union_prefer_right(overrides)
}

/// The colour that a colour string gives a role: what it parses to, or the
/// neutral grey where it does not parse.
pub open spec fn color_or_grey(text: Seq<char>) -> Color {
    match parse_color(text) {
        Ok(color) => color,
        Err(_) => Color::Grey,
    }
}

/// The colours that a map of colour strings gives its roles.
pub open spec fn parsed_colors(names: Map<Meaning, String>) -> Map<Meaning, Color> {
    Map::new(|role: Meaning| names.contains_key(role), |role: Meaning| color_or_grey(names[role]@))
}

/// The warning for a colour string that did not parse.
pub open spec fn color_warning(message: Seq<char>, text: Seq<char>) -> Seq<char> {
    "Could not load theme color: "@ + message + " -> "@ + text
}

/// The warnings for the roles at positions below `end`, in the order of the
/// roles: one for each colour string that does not parse.
pub open spec fn warnings_below(names: Map<Meaning, String>, end: int) -> Seq<Seq<char>>
    decreases end,
{
    if end <= 0 {
        Seq::empty()
    } else {
        let role = Meaning::spec_from_index(end - 1);
        let earlier = warnings_below(names, end - 1);
        if names.contains_key(role) {
            match parse_color(names[role]@) {
                Ok(_) => earlier,
                Err(message) => earlier.push(color_warning(message, names[role]@)),
            }
        } else {
            earlier
        }
    }
}

/// The warnings that building a theme from `names` gives: none unless `debug`
/// is set.
pub open spec fn build_warnings(names: Map<Meaning, String>, debug: bool) -> Seq<Seq<char>> {
    if debug {
        warnings_below(names, MEANING_COUNT as int)
    } else {
        Seq::empty()
    }
}

/// The colours that the built-in theme of a name lays over the defaults.
pub open spec fn builtin_overrides(name: Seq<char>) -> Option<Map<Meaning, Color>> {
    if name == ""@ {
        Some(Map::empty())
    } else if name == "autumn"@ {
        Some(
            Map::empty().insert(Meaning::AlertError, Color::Rgb { r: 139, g: 69, b: 19 }).insert(
                Meaning::AlertWarn,
                Color::Rgb { r: 255, g: 140, b: 0 },
            ).insert(Meaning::AlertInfo, Color::Rgb { r: 255, g: 215, b: 0 }).insert(
                Meaning::Annotation,
                Color::DarkGrey,
            ).insert(Meaning::Guidance, Color::Rgb { r: 165, g: 42, b: 42 }),
        )
    } else if name == "marine"@ {
        Some(
            Map::empty().insert(Meaning::AlertError, Color::Rgb { r: 154, g: 205, b: 50 }).insert(
                Meaning::AlertWarn,
                Color::Rgb { r: 0, g: 255, b: 255 },
            ).insert(Meaning::AlertInfo, Color::Rgb { r: 64, g: 224, b: 208 }).insert(
                Meaning::Annotation,
                Color::Rgb { r: 70, g: 130, b: 180 },
            ).insert(Meaning::Base, Color::Rgb { r: 176, g: 196, b: 222 }).insert(
                Meaning::Guidance,
                Color::Rgb { r: 0, g: 128, b: 128 },
            ),
        )
    } else {
        None
    }
}

/// The colours of the built-in theme of a name, if there is one.
pub open spec fn builtin_colors(name: Seq<char>) -> Option<Map<Meaning, Color>> {
    match builtin_overrides(name) {
        Some(overrides) => Some(layered(overrides)),
        None => None,
    }
}

impl Theme {
    /// The base colour, for general text.
    pub fn get_base(&self) -> (color: Color)
        requires
            self@.contains_key(Meaning::Base),
        ensures
            color == self@[Meaning::Base],
    {
        *self.colors.get(Meaning::Base).unwrap()
    }

    /// The colour of an informational alert.
    pub fn get_info(&self) -> (color: Color)
        requires
            self@.contains_key(Meaning::AlertInfo),
        ensures
            color == self@[Meaning::AlertInfo],
    {
        self.get_alert(Level::Info)
    }

    /// The colour of a warning.
    pub fn get_warning(&self) -> (color: Color)
        requires
            self@.contains_key(Meaning::AlertWarn),
        ensures
            color == self@[Meaning::AlertWarn],
    {
        self.get_alert(Level::Warn)
    }

    /// The colour of an error.
    pub fn get_error(&self) -> (color: Color)
        requires
            self@.contains_key(Meaning::AlertError),
        ensures
            color == self@[Meaning::AlertError],
    {
        self.get_alert(Level::Error)
    }

    /// The colour of an alert of a given severity.
    pub fn get_alert(&self, severity: Level) -> (color: Color)
        requires
            self@.contains_key(severity.spec_meaning()),
        ensures
            color == self@[severity.spec_meaning()],
    {
        *self.colors.get(severity.meaning()).unwrap()
    }

    /// The theme with exactly the given colours.
    pub fn new(colors: MeaningMap<Color>) -> (theme: Theme)
        ensures
            theme@ == colors@,
            theme.colors == colors,
    {
        Theme { colors }
    }

    /// The role whose colour stands for `meaning` in this theme.
    pub fn closest_meaning(&self, meaning: &Meaning) -> (chosen: Meaning)
        ensures
            chosen == closest(self@, *meaning),
            self@.contains_key(chosen) || chosen == Meaning::Base,
    {
        let mut current: Meaning = *meaning;
        loop
            invariant
                closest(self@, current) == closest(self@, *meaning),
            ensures
                current == closest(self@, *meaning),
                self@.contains_key(current) || current == Meaning::Base,
            decreases current.fallback_depth(),
        {
            if self.colors.contains_key(current) {
                break ;
            }
            match current.fallback() {
                Some(next) => {
                    proof {
                        fallback_descends(current);
                    }
                    current = next;
                },
                None => {
                    current = Meaning::Base;
                    break ;
                },
            }
        }
        current
    }

    /// The style for a role: the colour of the closest role as foreground,
    /// everything else left alone.
    pub fn as_style(&self, meaning: Meaning) -> (style: Style)
        requires
            self@.contains_key(Meaning::Base) || self@.contains_key(closest(self@, meaning)),
        ensures
            self@.contains_key(closest(self@, meaning)),
            style == foreground(self@[closest(self@, meaning)]),
            style.foreground_color is Some,
            self@.contains_value(style.foreground_color->0),
    {
        proof {
            resolution_ends_in_theme_or_base(self@, meaning);
        }
        let chosen = self.closest_meaning(&meaning);
        let color = *self.colors.get(chosen).unwrap();
        Style { foreground_color: Some(color), background_color: None, underline_color: None }
    }

    /// Builds a theme from colour strings laid over the defaults. A string
    /// that does not parse gives its role the neutral grey, and a warning if
    /// `debug` is set; the warnings come back with the theme, in the order of
    /// the roles.
    pub fn from_map(colors: MeaningMap<String>, debug: bool) -> (built: (Theme, Vec<String>))
        ensures
            built.0@ == layered(parsed_colors(colors@)),
            built.0@.contains_key(Meaning::Base),
            built.1.deep_view() == build_warnings(colors@, debug),
    {
        let mut parsed: MeaningMap<Color> = MeaningMap::new();
        let mut warnings: Vec<String> = Vec::new();
        let mut position: usize = 0;
        while position < MEANING_COUNT
            invariant
                position <= MEANING_COUNT,
                forall|role: Meaning|
                    parsed@.contains_key(role) <==> (colors@.contains_key(role)
                        && role.spec_index() < position),
                forall|role: Meaning|
                    parsed@.contains_key(role) ==> parsed@[role] == color_or_grey(colors@[role]@),
                debug ==> warnings.deep_view() == warnings_below(colors@, position as int),
                !debug ==> warnings@.len() == 0,
            decreases MEANING_COUNT - position,
        {
            let role = Meaning::from_index(position);
            match colors.get(role) {
                Some(text) => {
                    match from_string(text.as_str()) {
                        Ok(color) => {
                            parsed.insert(role, color);
                        },
                        Err(message) => {
                            if debug {
                                let ghost before = warnings.deep_view();
                                let line = warning_line(message.as_str(), text.as_str());
                                warnings.push(line);
                                assert(warnings.deep_view() =~= before.push(line@));
                            }
                            parsed.insert(role, Color::Grey);
                        },
                    }
                },
                None => {},
            }
            position = position + 1;
        }
        let theme = make_theme(&parsed);
        assert(parsed@ =~= parsed_colors(colors@));
        assert(warnings.deep_view() =~= build_warnings(colors@, debug));
        (theme, warnings)
    }
}

/// The warning for a colour string that did not parse.
pub fn warning_line(message: &str, text: &str) -> (line: String)
    ensures
        line@ == color_warning(message@, text@),
{
    let mut line = owned("Could not load theme color: ");
    line.append(message);
    line.append(" -> ");
    line.append(text);
    line
}

/// Lays colours over the defaults: a role of `overrides` has its colour from
/// there, any other role keeps its default.
pub fn make_theme(overrides: &MeaningMap<Color>) -> (theme: Theme)
    ensures
        theme@ == layered(overrides@),
        theme@.contains_key(Meaning::Base),
{
    let mut colors: MeaningMap<Color> = MeaningMap::new();
    colors.insert(Meaning::AlertError, Color::Red);
    colors.insert(Meaning::AlertWarn, Color::Yellow);
    colors.insert(Meaning::AlertInfo, Color::Green);
    colors.insert(Meaning::Annotation, Color::DarkGrey);
    colors.insert(Meaning::Guidance, Color::Blue);
    colors.insert(Meaning::Important, Color::White);
    colors.insert(Meaning::Base, Color::Grey);
    assert(colors@ =~= default_colors());
    let mut position: usize = 0;
    while position < MEANING_COUNT
        invariant
            position <= MEANING_COUNT,
            forall|role: Meaning|
                colors@.contains_key(role) <==> (default_color(role) is Some || (
                overrides@.contains_key(role) && role.spec_index() < position)),
            forall|role: Meaning|
                colors@.contains_key(role) ==> colors@[role] == (if overrides@.contains_key(role)
                    && role.spec_index() < position {
                    overrides@[role]
                } else {
                    default_color(role)->0
                }),
        decreases MEANING_COUNT - position,
    {
        let role = Meaning::from_index(position);
        match overrides.get(role) {
            Some(color) => {
                colors.insert(role, *color);
            },
            None => {},
        }
        position = position + 1;
    }
    assert(colors@ =~= layered(overrides@));
    Theme::new(colors)
}

/// The colour of a colour string that is known to parse: one that
/// `listed_color` lists, or one that was seen to parse before.
pub fn known_color(name: &str) -> (color: Color)
    requires
        listed_color(name@) is Some || parse_color(name@) is Ok,
    ensures
        parse_color(name@) == Ok::<Color, Seq<char>>(color),
        listed_color(name@) matches Some((r, g, b)) ==> color == (Color::Rgb { r, g, b }),
{
    match from_string(name) {
        Ok(color) => color,
        Err(_) => unreached(),
    }
}

/// The built-in theme of a name: the defaults for the empty name, `autumn` and
/// `marine` with their own colours over the defaults, and none for any other
/// name.
pub fn builtin_theme(name: &str) -> (theme: Option<Theme>)
    ensures
        match builtin_colors(name@) {
            Some(colors) => theme is Some && theme->0@ == colors,
            None => theme is None,
        },
        theme matches Some(found) ==> found@.contains_key(Meaning::Base),
{
    proof {
        listed_colors();
        reveal_strlit("");
        reveal_strlit("autumn");
        reveal_strlit("marine");
        assert(""@.len() == 0);
        assert("autumn"@.len() == 6 && "autumn"@[0] == 'a');
        assert("marine"@.len() == 6 && "marine"@[0] == 'm');
    }
    let mut overrides: MeaningMap<Color> = MeaningMap::new();
    if same_text(name, "") {
    } else if same_text(name, "autumn") {
        overrides.insert(Meaning::AlertError, known_color("saddlebrown"));
        overrides.insert(Meaning::AlertWarn, known_color("darkorange"));
        overrides.insert(Meaning::AlertInfo, known_color("gold"));
        overrides.insert(Meaning::Annotation, Color::DarkGrey);
        overrides.insert(Meaning::Guidance, known_color("brown"));
    } else if same_text(name, "marine") {
        overrides.insert(Meaning::AlertError, known_color("yellowgreen"));
        overrides.insert(Meaning::AlertWarn, known_color("cyan"));
        overrides.insert(Meaning::AlertInfo, known_color("turquoise"));
        overrides.insert(Meaning::Annotation, known_color("steelblue"));
        overrides.insert(Meaning::Base, known_color("lightsteelblue"));
        overrides.insert(Meaning::Guidance, known_color("teal"));
    } else {
        return None;
    }
    assert(overrides@ =~= builtin_overrides(name@)->0);
    Some(make_theme(&overrides))
}

/// Whether a name is that of a built-in theme.
pub fn is_builtin(name: &str) -> (known: bool)
    ensures
        known == (builtin_colors(name@) is Some),
{
    same_text(name, "") || same_text(name, "autumn") || same_text(name, "marine")
}

/// The theme without any colour of its own: the defaults.
pub fn default_theme() -> (theme: Theme)
    ensures
        theme@ == default_colors(),
        builtin_colors(""@) == Some(theme@),
        theme@.contains_key(Meaning::Base),
{
    let overrides: MeaningMap<Color> = MeaningMap::new();
    let theme = make_theme(&overrides);
    assert(layered(Map::empty()) =~= default_colors());
    theme
}

/// The built-in theme of a name, or the defaults where no built-in theme has
/// that name.
pub fn load_theme(name: &str) -> (theme: Theme)
    ensures
        theme@ == match builtin_colors(name@) {
            Some(colors) => colors,
            None => default_colors(),
        },
        theme@.contains_key(Meaning::Base),
{
    match builtin_theme(name) {
        Some(theme) => theme,
        None => default_theme(),
    }
}

/// Resolution always ends, and it ends at a role that the theme colours or at
/// `Base`.
pub proof fn resolution_ends_in_theme_or_base(colors: Map<Meaning, Color>, role: Meaning)
    ensures
        colors.contains_key(closest(colors, role)) || closest(colors, role) == Meaning::Base,
        colors.contains_key(role) ==> closest(colors, role) == role,
    decreases role.fallback_depth(),
{
    if !colors.contains_key(role) {
        match role.spec_fallback() {
            Some(next) => {
                fallback_descends(role);
                resolution_ends_in_theme_or_base(colors, next);
            },
            None => {},
        }
    }
}

/// In a theme without any colour every role resolves to `Base`: no path of the
/// fallback graph runs in a circle.
pub proof fn empty_theme_resolves_to_base(role: Meaning)
    ensures
        closest(Map::<Meaning, Color>::empty(), role) == Meaning::Base,
    decreases role.fallback_depth(),
{
    match role.spec_fallback() {
        Some(next) => {
            fallback_descends(role);
            empty_theme_resolves_to_base(next);
        },
        None => {},
    }
}

/// In a theme that colours `Base`, every role has a style, and the foreground
/// of that style is one of the colours of the theme. The same holds of a role
/// in any theme that colours its closest role.
pub proof fn style_comes_from_theme(colors: Map<Meaning, Color>, role: Meaning)
    requires
        colors.contains_key(Meaning::Base) || colors.contains_key(closest(colors, role)),
    ensures
        colors.contains_key(closest(colors, role)),
        foreground(colors[closest(colors, role)]).foreground_color == Some(
            colors[closest(colors, role)],
        ),
        colors.contains_value(colors[closest(colors, role)]),
{
    resolution_ends_in_theme_or_base(colors, role);
}

/// Layering removes nothing from the defaults: every role with a default is
/// coloured whatever is laid over them, `Base` among them.
pub proof fn layering_keeps_defaults(overrides: Map<Meaning, Color>, role: Meaning)
    ensures
        default_color(role) is Some ==> layered(overrides).contains_key(role),
        layered(overrides).contains_key(Meaning::Base),
        layered(overrides).contains_key(closest(layered(overrides), role)),
{
    style_comes_from_theme(layered(overrides), role);
}

/// What the builder gives each role: the colour that its string parses to;
/// the neutral grey where the string does not parse; where the role has no
/// string, its default, and no colour where it has no default either.
pub proof fn builder_layers(names: Map<Meaning, String>, role: Meaning)
    ensures
        names.contains_key(role) ==> layered(parsed_colors(names)).contains_key(role),
        names.contains_key(role) && parse_color(names[role]@) is Ok ==> layered(
            parsed_colors(names),
        )[role] == parse_color(names[role]@)->Ok_0,
        names.contains_key(role) && parse_color(names[role]@) is Err ==> layered(
            parsed_colors(names),
        )[role] == Color::Grey,
        !names.contains_key(role) && default_color(role) is Some ==> layered(
            parsed_colors(names),
        ).contains_key(role) && layered(parsed_colors(names))[role] == default_color(role)->0,
        !names.contains_key(role) && default_color(role) is None ==> !layered(
            parsed_colors(names),
        ).contains_key(role),
{
}

/// One colour string that does not parse changes nothing for the other roles:
/// their colours depend on their own strings alone.
pub proof fn entries_are_independent(
    names: Map<Meaning, String>,
    role: Meaning,
    text: String,
    other: Meaning,
)
    requires
        other != role,
    ensures
        layered(parsed_colors(names.insert(role, text))).contains_key(other) == layered(
            parsed_colors(names),
        ).contains_key(other),
        layered(parsed_colors(names)).contains_key(other) ==> layered(
            parsed_colors(names.insert(role, text)),
        )[other] == layered(parsed_colors(names))[other],
{
}

} // verus!
