//! Themes for a terminal client: semantic roles for text, the colours that a
//! theme gives them, the manager that finds a theme by name, and the
//! decisions of the inspector view that uses them.
//!
//! Every executable function here carries a contract that Verus proves.

pub mod color;
pub mod inspector;
pub mod manager;
pub mod meaning;
pub mod meaning_map;
pub mod text;
pub mod theme;

pub use color::{from_string, Color, Style};
pub use manager::{FileContents, LoadStep, ThemeDirectory, ThemeFile, ThemeManager, ThemeStatus};
pub use meaning::{Level, Meaning, MEANING_COUNT};
pub use meaning_map::MeaningMap;
pub use theme::{load_theme, Theme};
