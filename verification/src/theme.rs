use vstd::prelude::*;

verus! {

/// A colour theme for syntax highlighting.
#[derive(Debug, Clone, Copy, PartialEq, Eq, Structural)]
pub enum Theme {
    SolarizedDark,
    Base16Mocha,
    Base16Ocean,
    Base16Eighties,
    InspiredGitHub,
}

/// The look of the window around the editor pane.
#[derive(Debug, Clone, Copy, PartialEq, Eq, Structural)]
pub enum Appearance {
    Dark,
    Light,
}

impl Theme {
    /// Whether the theme has a dark background: all themes but
    /// `InspiredGitHub` have.
    pub open spec fn dark(self) -> bool {
        self != Theme::InspiredGitHub
    }

    /// Whether the theme has a dark background.
    pub fn is_dark(self) -> (dark: bool)
        ensures
            dark == self.dark(),
    {
        match self {
            Theme::SolarizedDark
            | Theme::Base16Mocha
            | Theme::Base16Ocean
            | Theme::Base16Eighties => true,
            Theme::InspiredGitHub => false,
        }
    }

    /// The look of the window that goes with the theme: dark with a dark theme,
    /// light with a light one.
    pub open spec fn appearance(self) -> Appearance {
        if self.dark() {
            Appearance::Dark
        } else {
            Appearance::Light
        }
    }
}

} // verus!
