//! The theme manager: a cache of loaded themes, the built-in themes behind it,
//! and the decisions of loading a theme from a file. The manager never reads a
//! file itself. It says which file to read, and takes what was read as its
//! next input; warnings wait in the manager until the caller collects them.

use vstd::hash_map::StringHashMap;
use vstd::prelude::*;
use crate::color::Color;
use crate::meaning::Meaning;
use crate::meaning_map::MeaningMap;
use crate::text::owned;
use crate::theme::{
    build_warnings,
    builtin_colors,
    builtin_theme,
    default_colors,
    default_theme,
    is_builtin,
    layered,
    parsed_colors,
    Theme,
};

verus! {

/// Where theme files are looked for.
#[derive(Debug, PartialEq, Eq)]
pub enum ThemeDirectory {
    /// The directory that the caller or the environment gave.
    Override(String),
    /// The directory `themes` below the configuration directory of the user.
    UserConfig,
}

/// A theme file: its directory and its name in that directory.
#[derive(Debug, PartialEq, Eq)]
pub struct ThemeFile {
    pub directory: ThemeDirectory,
    pub file_name: String,
}

/// What a request for a theme leads to: the theme itself, or the file that
/// has to be read before the request can be finished.
#[derive(Debug, PartialEq, Eq)]
pub enum LoadStep {
    Ready(Theme),
    ReadFile(ThemeFile),
}

/// What reading a theme file gave.
#[derive(Debug, PartialEq, Eq)]
pub enum FileContents {
    /// The keys and values of the file, in the order of the file.
    Entries(Vec<(String, String)>),
    /// The file was read, but it does not hold keys with strings as values;
    /// the text says why.
    Malformed(String),
    /// The file is not there or cannot be read; the text says why.
    Unreadable(String),
}

/// What the manager knows of a name.
#[derive(Clone, Copy, Debug, PartialEq, Eq, Structural)]
pub enum ThemeStatus {
    /// A theme of that name was loaded before and is in the cache.
    Cached,
    /// The name is that of a built-in theme.
    Builtin,
    /// Neither: a file has to be tried.
    Unknown,
}

/// Keeps the themes that were loaded, so that none is loaded twice.
pub struct ThemeManager {
    loaded_themes: StringHashMap<Theme>,
    debug: bool,
    override_theme_dir: Option<String>,
    warnings: Vec<String>,
}

/// The state of a manager as contracts see it.
#[verifier::ext_equal]
pub struct ManagerState {
    /// The cache, from names to themes.
    pub loaded: Map<Seq<char>, Theme>,
    /// Whether colour strings that do not parse are reported.
    pub debug: bool,
    /// The directory override. Present and empty is not the same as absent.
    pub override_dir: Option<Seq<char>>,
    /// The warnings that nobody has collected yet, oldest first.
    pub warnings: Seq<Seq<char>>,
}

impl View for ThemeManager {
    type V = ManagerState;

    closed spec fn view(&self) -> ManagerState {
        ManagerState {
            loaded: self.loaded_themes@,
            debug: self.debug,
            override_dir: match self.override_theme_dir {
                Some(dir) => Some(dir@),
                None => None,
            },
            warnings: self.warnings.deep_view(),
        }
    }
}

/// The reason given where the directory override is present and empty.
pub open spec fn empty_override_message() -> Seq<char> {
    "Empty theme directory override and could not find theme elsewhere"@
}

/// The warning for a theme that could not be loaded.
pub open spec fn load_warning(name: Seq<char>, reason: Seq<char>) -> Seq<char> {
    "Could not load theme "@ + name + ": "@ + reason
}

/// The name of the file of a theme.
pub open spec fn theme_file_name(name: Seq<char>) -> Seq<char> {
    name + ".toml"@
}

/// The directory override that a manager starts with: the one of the caller,
/// or else the one of the environment.
pub open spec fn chosen_override(theme_dir: Option<String>, env_theme_dir: Option<String>) -> Option<
    Seq<char>,
> {
    match theme_dir {
        Some(dir) => Some(dir@),
        None => match env_theme_dir {
            Some(dir) => Some(dir@),
            None => None,
        },
    }
}

/// The colour strings that the entries of a theme file give the roles. An
/// entry whose key names no role is dropped; of two entries for one role the
/// later one stands.
pub open spec fn entries_map(entries: Seq<(String, String)>) -> Map<Meaning, String>
    decreases entries.len(),
{
    if entries.len() == 0 {
        Map::empty()
    } else {
        let earlier = entries_map(entries.drop_last());
        match Meaning::spec_from_name(entries.last().0@) {
            Some(role) => earlier.insert(role, entries.last().1),
            None => earlier,
        }
    }
}

/// The warning for a key of a theme file that names no role.
pub open spec fn unknown_key_warning(key: Seq<char>) -> Seq<char> {
    "Could not load theme color: No such meaning -> "@ + key
}

/// The warnings for the keys of a theme file that name no role, in the order
/// of the file: none unless `debug` is set.
pub open spec fn key_warnings(entries: Seq<(String, String)>, debug: bool) -> Seq<Seq<char>>
    decreases entries.len(),
{
    if entries.len() == 0 || !debug {
        Seq::empty()
    } else {
        let earlier = key_warnings(entries.drop_last(), debug);
        match Meaning::spec_from_name(entries.last().0@) {
            Some(_) => earlier,
            None => earlier.push(unknown_key_warning(entries.last().0@)),
        }
    }
}

/// The warning for a theme file that does not hold keys with strings.
pub open spec fn malformed_warning(reason: Seq<char>) -> Seq<char> {
    "failed to deserialize: "@ + reason
}

impl ThemeFile {
    /// Whether this is the file of the theme `name` under a directory override.
    pub open spec fn locates(self, override_dir: Option<Seq<char>>, name: Seq<char>) -> bool {
        &&& self.file_name@ == theme_file_name(name)
        &&& match override_dir {
            Some(dir) => self.directory matches ThemeDirectory::Override(path) && path@ == dir,
            None => self.directory is UserConfig,
        }
    }
}

impl ManagerState {
    /// What the manager knows of a name.
    pub open spec fn status(self, name: Seq<char>) -> ThemeStatus {
        if self.loaded.contains_key(name) {
            ThemeStatus::Cached
        } else if builtin_colors(name) is Some {
            ThemeStatus::Builtin
        } else {
            ThemeStatus::Unknown
        }
    }

    /// Whether file loads are refused: the override is present and empty.
    pub open spec fn refuses_files(self) -> bool {
        self.override_dir matches Some(dir) && dir.len() == 0
    }

    /// This state with one more warning.
    pub open spec fn warned(self, line: Seq<char>) -> ManagerState {
        ManagerState { warnings: self.warnings.push(line), ..self }
    }

    /// This state with more warnings.
    pub open spec fn warned_all(self, lines: Seq<Seq<char>>) -> ManagerState {
        ManagerState { warnings: self.warnings + lines, ..self }
    }

    /// This state after a theme was loaded from the contents of a file or of
    /// a configuration in memory.
    pub open spec fn after_contents(self, name: Seq<char>, theme: Theme, contents: FileContents) -> ManagerState {
        match contents {
            FileContents::Entries(entries) => self.warned_all(key_warnings(entries@, self.debug)).cached(
                name,
                theme,
                entries_map(entries@),
            ),
            FileContents::Malformed(reason) => self.warned(malformed_warning(reason@)).cached(
                name,
                theme,
                Map::empty(),
            ),
            FileContents::Unreadable(reason) => self.warned(load_warning(name, reason@)),
        }
    }

    /// This state after a theme was built from colour strings and cached.
    pub open spec fn cached(self, name: Seq<char>, theme: Theme, names: Map<Meaning, String>) -> ManagerState {
        ManagerState {
            loaded: self.loaded.insert(name, theme),
            warnings: self.warnings + build_warnings(names, self.debug),
            ..self
        }
    }
}

/// The colours of the theme that given contents lead to: their colour strings
/// over the defaults, the defaults alone for contents that are malformed or
/// could not be read.
pub open spec fn contents_colors(contents: FileContents) -> Map<Meaning, Color> {
    match contents {
        FileContents::Entries(entries) => layered(parsed_colors(entries_map(entries@))),
        FileContents::Malformed(_) => default_colors(),
        FileContents::Unreadable(_) => default_colors(),
    }
}

/// The colour strings that the entries of a theme file give the roles, and
/// the warnings for the keys that name no role.
pub fn config_from_entries(entries: &Vec<(String, String)>, debug: bool) -> (read: (
    MeaningMap<String>,
    Vec<String>,
))
    ensures
        read.0@ == entries_map(entries@),
        read.1.deep_view() == key_warnings(entries@, debug),
{
    let mut config: MeaningMap<String> = MeaningMap::new();
    let mut warnings: Vec<String> = Vec::new();
    let mut at: usize = 0;
    assert(warnings.deep_view() =~= key_warnings(entries@.take(0), debug));
    while at < entries.len()
        invariant
            at <= entries.len(),
            config@ == entries_map(entries@.take(at as int)),
            warnings.deep_view() == key_warnings(entries@.take(at as int), debug),
        decreases entries.len() - at,
    {
        proof {
            assert(entries@.take(at + 1).drop_last() =~= entries@.take(at as int));
        }
        let ghost before = warnings.deep_view();
        match Meaning::from_name(entries[at].0.as_str()) {
            Some(role) => {
                config.insert(role, entries[at].1.clone());
            },
            None => {
                if debug {
                    let mut line = owned("Could not load theme color: No such meaning -> ");
                    line.append(entries[at].0.as_str());
                    warnings.push(line);
                    assert(warnings.deep_view() =~= before.push(line@));
                }
            },
        }
        at = at + 1;
        assert(warnings.deep_view() =~= key_warnings(entries@.take(at as int), debug));
    }
    proof {
        assert(entries@.take(at as int) =~= entries@);
    }
    (config, warnings)
}

/// The warning for a theme that could not be loaded.
pub fn load_warning_line(name: &str, reason: &str) -> (line: String)
    ensures
        line@ == load_warning(name@, reason@),
{
    let mut line = owned("Could not load theme ");
    line.append(name);
    line.append(": ");
    line.append(reason);
    line
}

impl ThemeManager {
    /// A manager with an empty cache. `debug` is off unless given. The
    /// directory override is that of the caller or, without one, that of the
    /// environment.
    pub fn new(debug: Option<bool>, theme_dir: Option<String>, env_theme_dir: Option<String>) -> (manager:
        Self)
        ensures
            manager@.loaded == Map::<Seq<char>, Theme>::empty(),
            manager@.debug == (debug == Some(true)),
            manager@.override_dir == chosen_override(theme_dir, env_theme_dir),
            manager@.warnings == Seq::<Seq<char>>::empty(),
    {
        let manager = ThemeManager {
            loaded_themes: StringHashMap::new(),
            debug: match debug {
                Some(flag) => flag,
                None => false,
            },
            override_theme_dir: match theme_dir {
                Some(dir) => Some(dir),
                None => env_theme_dir,
            },
            warnings: Vec::new(),
        };
        assert(manager@.warnings =~= Seq::<Seq<char>>::empty());
        manager
    }

    /// What the manager knows of a name.
    pub fn status(&self, name: &str) -> (status: ThemeStatus)
        ensures
            status == self@.status(name@),
    {
        if self.loaded_themes.contains_key(name) {
            ThemeStatus::Cached
        } else if is_builtin(name) {
            ThemeStatus::Builtin
        } else {
            ThemeStatus::Unknown
        }
    }

    /// Puts a theme into the cache under a name, in place of what was there.
    pub fn insert_theme(&mut self, name: String, theme: Theme)
        ensures
            final(self)@ == (ManagerState {
                loaded: old(self)@.loaded.insert(name@, theme),
                ..old(self)@
            }),
    {
        self.loaded_themes.insert(name, theme);
        assert(self@ =~= (ManagerState {
            loaded: old(self)@.loaded.insert(name@, theme),
            ..old(self)@
        }));
    }

    /// Hands over the warnings that have gathered, oldest first, and leaves
    /// none behind.
    pub fn take_warnings(&mut self) -> (lines: Vec<String>)
        ensures
            lines.deep_view() == old(self)@.warnings,
            final(self)@ == (ManagerState { warnings: Seq::empty(), ..old(self)@ }),
    {
        let mut lines: Vec<String> = Vec::new();
        core::mem::swap(&mut lines, &mut self.warnings);
        assert(self@ =~= (ManagerState { warnings: Seq::empty(), ..old(self)@ }));
        lines
    }

    /// The file of a theme: in the override directory where there is one, else
    /// in the directory of the user. An override that is present and empty
    /// refuses every file.
    pub fn theme_file(&self, name: &str) -> (file: Result<ThemeFile, String>)
        ensures
            self@.refuses_files() ==> file is Err && file->Err_0@ == empty_override_message(),
            !self@.refuses_files() ==> file is Ok && file->Ok_0.locates(self@.override_dir, name@),
    {
        let directory = match &self.override_theme_dir {
            Some(dir) => {
                if dir.as_str().unicode_len() == 0 {
                    return Err(
                        owned("Empty theme directory override and could not find theme elsewhere"),
                    );
                }
                ThemeDirectory::Override(dir.clone())
            },
            None => ThemeDirectory::UserConfig,
        };
        let mut file_name = owned(name);
        file_name.append(".toml");
        Ok(ThemeFile { directory, file_name })
    }

    /// Builds a theme from colour strings, caches it under `name` and returns
    /// it. The warnings of the builder join those of the manager.
    pub fn load_theme_from_config(&mut self, name: &str, config: MeaningMap<String>) -> (theme: Theme)
        ensures
            theme@ == layered(parsed_colors(config@)),
            theme@.contains_key(Meaning::Base),
            final(self)@ == old(self)@.cached(name@, theme, config@),
    {
        let ghost names = config@;
        let (theme, mut lines) = Theme::from_map(config, self.debug);
        let ghost before = self.warnings.deep_view();
        let ghost added = lines.deep_view();
        self.warnings.append(&mut lines);
        assert(self.warnings.deep_view() =~= before + added);
        self.loaded_themes.insert(owned(name), theme);
        assert(self@ =~= old(self)@.cached(name@, theme, names));
        theme
    }

    /// Builds a theme from what a theme file or a configuration in memory
    /// holds, and caches it under `name`. The colour strings are laid over the
    /// defaults. Contents that are malformed count as contents without colour
    /// strings, and a warning says so. Contents that could not be read give
    /// the default theme, nothing is cached, and a warning says why.
    pub fn load_theme_from_contents(&mut self, name: &str, contents: FileContents) -> (theme: Theme)
        ensures
            theme@.contains_key(Meaning::Base),
            theme@ == contents_colors(contents),
            final(self)@ == old(self)@.after_contents(name@, theme, contents),
    {
        match contents {
            FileContents::Entries(entries) => {
                let (config, mut lines) = config_from_entries(&entries, self.debug);
                let ghost before = self.warnings.deep_view();
                let ghost added = lines.deep_view();
                self.warnings.append(&mut lines);
                assert(self.warnings.deep_view() =~= before + added);
                assert(self@ =~= old(self)@.warned_all(key_warnings(entries@, old(self)@.debug)));
                self.load_theme_from_config(name, config)
            },
            FileContents::Malformed(reason) => {
                let ghost before = self.warnings.deep_view();
                let mut line = owned("failed to deserialize: ");
                line.append(reason.as_str());
                self.warnings.push(line);
                assert(self.warnings.deep_view() =~= before.push(line@));
                assert(self@ =~= old(self)@.warned(malformed_warning(reason@)));
                let config: MeaningMap<String> = MeaningMap::new();
                let theme = self.load_theme_from_config(name, config);
                assert(parsed_colors(Map::<Meaning, String>::empty()) =~= Map::<
                    Meaning,
                    Color,
                >::empty());
                assert(layered(Map::<Meaning, Color>::empty()) =~= default_colors());
                theme
            },
            FileContents::Unreadable(reason) => self.give_up(name, reason.as_str()),
        }
    }

    /// Finishes a request that `load_theme` answered with a file to read,
    /// with what reading the file gave: as `load_theme_from_contents` does,
    /// unless the manager refuses files. Then the result is the default
    /// theme, nothing is cached, and a warning says why.
    pub fn load_theme_from_file(&mut self, name: &str, contents: FileContents) -> (theme: Theme)
        ensures
            theme@.contains_key(Meaning::Base),
            old(self)@.refuses_files() ==> theme@ == default_colors() && final(self)@ == old(self)@.warned(
                load_warning(name@, empty_override_message()),
            ),
            !old(self)@.refuses_files() ==> theme@ == contents_colors(contents) && final(self)@
                == old(self)@.after_contents(name@, theme, contents),
    {
        match self.theme_file(name) {
            Err(reason) => self.give_up(name, reason.as_str()),
            Ok(_) => self.load_theme_from_contents(name, contents),
        }
    }

    /// Looks a theme up by name: first in the cache, then among the built-in
    /// themes. Where neither has it, the answer is the file to read, or, where
    /// the manager refuses files, the default theme and a warning.
    pub fn load_theme(&mut self, name: &str) -> (step: LoadStep)
        ensures
            match old(self)@.status(name@) {
                ThemeStatus::Cached => step == LoadStep::Ready(old(self)@.loaded[name@])
                    && final(self)@ == old(self)@,
                ThemeStatus::Builtin => step matches LoadStep::Ready(theme) && Some(theme@)
                    == builtin_colors(name@) && final(self)@ == old(self)@,
                ThemeStatus::Unknown => if old(self)@.refuses_files() {
                    step matches LoadStep::Ready(theme) && theme@ == default_colors()
                        && final(self)@ == old(self)@.warned(
                        load_warning(name@, empty_override_message()),
                    )
                } else {
                    step matches LoadStep::ReadFile(file) && file.locates(
                        old(self)@.override_dir,
                        name@,
                    ) && final(self)@ == old(self)@
                },
            },
            step matches LoadStep::Ready(theme) ==> theme@.contains_key(Meaning::Base)
                || old(self)@.status(name@) == ThemeStatus::Cached,
    {
        match self.loaded_themes.get(name) {
            Some(theme) => {
                return LoadStep::Ready(*theme);
            },
            None => {},
        }
        match builtin_theme(name) {
            Some(theme) => {
                return LoadStep::Ready(theme);
            },
            None => {},
        }
        match self.theme_file(name) {
            Ok(file) => LoadStep::ReadFile(file),
            Err(reason) => LoadStep::Ready(self.give_up(name, reason.as_str())),
        }
    }

    /// Notes that a theme could not be loaded, and falls back to the default
    /// theme.
    fn give_up(&mut self, name: &str, reason: &str) -> (theme: Theme)
        ensures
            theme@ == default_colors(),
            theme@.contains_key(Meaning::Base),
            final(self)@ == old(self)@.warned(load_warning(name@, reason@)),
    {
        let ghost before = self.warnings.deep_view();
        let line = load_warning_line(name, reason);
        self.warnings.push(line);
        assert(self.warnings.deep_view() =~= before.push(line@));
        assert(self@ =~= old(self)@.warned(load_warning(name@, reason@)));
        default_theme()
    }
}

/// A name that is in the cache stays there whatever is loaded later.
/// Contents that were read put their name in the cache; contents that could
/// not be read leave the cache as it was, so that name is tried again.
pub proof fn cached_is_terminal(
    state: ManagerState,
    name: Seq<char>,
    theme: Theme,
    contents: FileContents,
    other: Seq<char>,
)
    ensures
        state.status(other) == ThemeStatus::Cached ==> state.after_contents(name, theme, contents).status(
            other,
        ) == ThemeStatus::Cached,
        !(contents is Unreadable) ==> state.after_contents(name, theme, contents).status(name)
            == ThemeStatus::Cached,
        contents is Unreadable ==> state.after_contents(name, theme, contents).loaded == state.loaded,
        state.warned(name).loaded == state.loaded,
{
}

} // verus!
