//! What the indicator light can show.

use vstd::prelude::*;

verus! {

/// The colours of the indicator.
#[derive(Clone, Copy, Debug, PartialEq, Eq, Structural)]
pub enum Color {
    Red,
    Green,
    Blue,
    Yellow,
    Magenta,
    Cyan,
}

impl Color {
    /// The red, green and blue parts of the colour, each off or full.
    pub open spec fn spec_rgb(&self) -> (u8, u8, u8) {
        match self {
            Color::Red => (255, 0, 0),
            Color::Green => (0, 255, 0),
            Color::Blue => (0, 0, 255),
            Color::Yellow => (255, 255, 0),
            Color::Magenta => (255, 0, 255),
            Color::Cyan => (0, 255, 255),
        }
    }

    /// The red, green and blue parts of the colour, each off or full.
    #[verifier::when_used_as_spec(spec_rgb)]
    pub fn rgb(&self) -> (parts: (u8, u8, u8))
        ensures
            parts == self.spec_rgb(),
    {
        match self {
            Self::Red => (255, 0, 0),
            Self::Green => (0, 255, 0),
            Self::Blue => (0, 0, 255),
            Self::Yellow => (255, 255, 0),
            Self::Magenta => (255, 0, 255),
            Self::Cyan => (0, 255, 255),
        }
    }
}

/// Why the indicator could not be set.
#[derive(Clone, Copy, Debug, PartialEq, Eq, Structural)]
pub enum Error {
    /// The task that drives the indicator is gone.
    Disconnected,
}

impl Error {
    /// The error in words.
    pub fn message(&self) -> (text: &'static str)
        ensures
            text@ == "LED controller task is no longer running"@,
    {
        "LED controller task is no longer running"
    }
}

/// What the indicator shows: a steady colour, or one that fades in and out.
#[derive(Clone, Copy, Debug, PartialEq, Eq, Structural)]
pub enum LedState {
    Static(Color),
    Breathing(Color),
}

impl LedState {
    /// The level of each colour part that the driver is given: a quarter of
    /// the part for a steady colour, half of it for a breathing one.
    pub fn levels(&self) -> (levels: [u8; 3])
        ensures
            levels@ == match *self {
                LedState::Static(color) => seq![
                    color.spec_rgb().0 / 4,
                    color.spec_rgb().1 / 4,
                    color.spec_rgb().2 / 4,
                ],
                LedState::Breathing(color) => seq![
                    color.spec_rgb().0 / 2,
                    color.spec_rgb().1 / 2,
                    color.spec_rgb().2 / 2,
                ],
            },
    {
        match self {
            LedState::Static(color) => {
                let rgb = color.rgb();
                let levels = [rgb.0 / 4, rgb.1 / 4, rgb.2 / 4];
                assert(levels@ =~= seq![rgb.0 / 4, rgb.1 / 4, rgb.2 / 4]);
                levels
            },
            LedState::Breathing(color) => {
                let rgb = color.rgb();
                let levels = [rgb.0 / 2, rgb.1 / 2, rgb.2 / 2];
                assert(levels@ =~= seq![rgb.0 / 2, rgb.1 / 2, rgb.2 / 2]);
                levels
            },
        }
    }
}

} // verus!
