//! The colour theme that the launcher is shown in.

use vstd::prelude::*;
use crate::text::same_text;

verus! {

/// A theme: one of the two built-in ones, or a custom one kept in a file.
#[derive(Debug, PartialEq, Eq)]
pub enum ThemeType {
    Light,
    Dark,
    /// A custom theme, by the path of the file that holds it.
    Custom(String),
}

/// What a [`ThemeType`] stands for.
pub enum ThemeView {
    Light,
    Dark,
    Custom(Seq<char>),
}

impl View for ThemeType {
    type V = ThemeView;

    open spec fn view(&self) -> ThemeView {
        match *self {
            ThemeType::Light => ThemeView::Light,
            ThemeType::Dark => ThemeView::Dark,
            ThemeType::Custom(path) => ThemeView::Custom(path@),
        }
    }
}

/// The theme that a stored word names: `light`, `dark`, or else the path of a
/// custom theme's file.
pub open spec fn theme_of_word(word: Seq<char>) -> ThemeView {
    if word == "light"@ {
        ThemeView::Light
    } else if word == "dark"@ {
        ThemeView::Dark
    } else {
        ThemeView::Custom(word)
    }
}

/// The word under which a theme is stored.
pub open spec fn word_of_theme(theme: ThemeView) -> Seq<char> {
    match theme {
        ThemeView::Light => "light"@,
        ThemeView::Dark => "dark"@,
        ThemeView::Custom(path) => path,
    }
}

impl Clone for ThemeType {
    fn clone(&self) -> (r: Self)
        ensures
            r == *self,
    {
        match self {
            ThemeType::Light => ThemeType::Light,
            ThemeType::Dark => ThemeType::Dark,
            ThemeType::Custom(path) => ThemeType::Custom(path.clone()),
        }
    }
}

impl Default for ThemeType {
    fn default() -> (r: Self)
        ensures
            r == ThemeType::Light,
    {
        ThemeType::Light
    }
}

impl ThemeType {
    /// Reads a stored word as a theme. No file is opened: a custom theme is
    /// only named here.
    pub fn parse(word: &str) -> (r: Self)
        ensures
            r@ == theme_of_word(word@),
    {
        if same_text(word, "light") {
            ThemeType::Light
        } else if same_text(word, "dark") {
            ThemeType::Dark
        } else {
            ThemeType::Custom(String::from_str(word))
        }
    }

    /// The theme that the toggle in the title bar switches to: the dark one
    /// from the light one, and the light one from any other.
    pub fn toggled(&self) -> (r: Self)
        ensures
            r@ == if self@ == ThemeView::Light {
                ThemeView::Dark
            } else {
                ThemeView::Light
            },
    {
        match self {
            ThemeType::Light => ThemeType::Dark,
            ThemeType::Dark => ThemeType::Light,
            ThemeType::Custom(_) => ThemeType::Light,
        }
    }

    /// The word under which the theme is stored.
    pub fn word(&self) -> (r: String)
        ensures
            r@ == word_of_theme(self@),
    {
        match self {
            ThemeType::Light => String::from_str("light"),
            ThemeType::Dark => String::from_str("dark"),
            ThemeType::Custom(path) => path.clone(),
        }
    }
}

/// A theme that is stored and read again is the same theme, unless it is a
/// custom theme whose path is one of the two built-in words.
pub proof fn lemma_theme_word_roundtrip(theme: ThemeView)
    requires
        theme != ThemeView::Custom("light"@),
        theme != ThemeView::Custom("dark"@),
    ensures
        theme_of_word(word_of_theme(theme)) == theme,
{
    reveal_strlit("light");
    reveal_strlit("dark");
    assert("light"@ != "dark"@) by {
        assert("dark"@.len() == 4);
    }
}

} // verus!
