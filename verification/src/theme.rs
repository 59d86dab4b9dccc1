//! The theme: the colours of the window, with the two variants of the
//! primary colour that are derived from it and change only with it.

use crate::color::Color;
use vstd::prelude::*;

verus! {

/// By how many hundredths the primary colour is lightened for its hover
/// variant and darkened for its active variant.
pub const PRIMARY_SHIFT: u8 = 10;

/// The five colours of a theme, as one value.
#[derive(Clone, Copy, Debug, PartialEq, Eq, Structural)]
pub struct Palette {
    pub background: Color,
    pub foreground: Color,
    pub primary: Color,
    pub primary_hover: Color,
    pub primary_active: Color,
}

impl Palette {
    /// The palette with these three colours and the variants of `primary`
    /// that belong to it.
    pub open spec fn derived_from(background: Color, foreground: Color, primary: Color) -> Palette {
        Palette {
            background,
            foreground,
            primary,
            primary_hover: primary.spec_lighten(10),
            primary_active: primary.spec_darken(10),
        }
    }

    /// Whether the two variants are those that belong to the primary colour.
    pub open spec fn is_derived(self) -> bool {
        &&& self.primary_hover == self.primary.spec_lighten(10)
        &&& self.primary_active == self.primary.spec_darken(10)
    }

    /// This palette with another primary colour, and the variants that
    /// belong to that one.
    pub open spec fn with_primary(self, color: Color) -> Palette {
        Palette::derived_from(self.background, self.foreground, color)
    }
}

/// Setting the primary colour yields that colour as primary and variants
/// that depend on it alone; setting it a second time changes nothing.
pub proof fn lemma_with_primary(palette: Palette, other: Palette, color: Color)
    ensures
        palette.with_primary(color).primary == color,
        palette.with_primary(color).is_derived(),
        palette.with_primary(color).background == palette.background,
        palette.with_primary(color).foreground == palette.foreground,
        palette.with_primary(color).primary_hover == other.with_primary(color).primary_hover,
        palette.with_primary(color).primary_active == other.with_primary(color).primary_active,
        palette.with_primary(color).with_primary(color) == palette.with_primary(color),
{
}

/// What the colour picker reports: the colour that was picked, or that
/// none was.
#[derive(Clone, Copy, Debug, PartialEq, Eq, Structural)]
pub enum ColorPickerEvent {
    Change(Option<Color>),
}

/// The colours of the window. The hover and active variants of the primary
/// colour always belong to the primary colour of the same theme.
#[derive(Clone, Copy, Debug)]
pub struct Theme {
    palette: Palette,
}

impl View for Theme {
    type V = Palette;

    closed spec fn view(&self) -> Palette {
        self.palette
    }
}

impl Theme {
    #[verifier::type_invariant]
    spec fn variants_belong(self) -> bool {
        self.palette.is_derived()
    }

    /// A theme with these colours.
    pub fn new(background: Color, foreground: Color, primary: Color) -> (res: Theme)
        ensures
            res@ == Palette::derived_from(background, foreground, primary),
    {
        Theme {
            palette: Palette {
                background,
                foreground,
                primary,
                primary_hover: primary.lighten(PRIMARY_SHIFT),
                primary_active: primary.darken(PRIMARY_SHIFT),
            },
        }
    }

    /// All five colours at once.
    pub fn palette(&self) -> (res: Palette)
        ensures
            res == self@,
            res.is_derived(),
    {
        proof {
            use_type_invariant(self);
        }
        self.palette
    }

    pub fn background(&self) -> (res: Color)
        ensures
            res == self@.background,
    {
        self.palette.background
    }

    pub fn foreground(&self) -> (res: Color)
        ensures
            res == self@.foreground,
    {
        self.palette.foreground
    }

    pub fn primary(&self) -> (res: Color)
        ensures
            res == self@.primary,
    {
        self.palette.primary
    }

    /// The primary colour, lightened.
    pub fn primary_hover(&self) -> (res: Color)
        ensures
            res == self@.primary_hover,
            res == self@.primary.spec_lighten(10),
    {
        proof {
            use_type_invariant(self);
        }
        self.palette.primary_hover
    }

    /// The primary colour, darkened.
    pub fn primary_active(&self) -> (res: Color)
        ensures
            res == self@.primary_active,
            res == self@.primary.spec_darken(10),
    {
        proof {
            use_type_invariant(self);
        }
        self.palette.primary_active
    }

    /// Makes `color` the primary colour and derives both variants from it,
    /// all three in one step.
    pub fn set_primary(&mut self, color: Color)
        ensures
            final(self)@ == old(self)@.with_primary(color),
    {
        let palette = Palette {
            background: self.palette.background,
            foreground: self.palette.foreground,
            primary: color,
            primary_hover: color.lighten(PRIMARY_SHIFT),
            primary_active: color.darken(PRIMARY_SHIFT),
        };
        self.palette = palette;
    }

    /// Takes what the colour picker reports. A picked colour becomes the
    /// primary colour, and the window is to be drawn again; without one
    /// nothing changes. Returns whether the window is to be drawn again.
    pub fn on_color_picker_event(&mut self, event: ColorPickerEvent) -> (refresh: bool)
        ensures
            match event {
                ColorPickerEvent::Change(Some(color)) => refresh && final(self)@ == old(
                    self,
                )@.with_primary(color),
                ColorPickerEvent::Change(None) => !refresh && final(self)@ == old(self)@,
            },
    {
        match event {
            ColorPickerEvent::Change(Some(color)) => {
                self.set_primary(color);
                true
            },
            ColorPickerEvent::Change(None) => false,
        }
    }
}

impl Default for Theme {
    /// The light theme: dark text and a dark primary colour on white.
    fn default() -> (res: Theme)
        ensures
            res@ == Palette::derived_from(
                Color { r: 255, g: 255, b: 255, a: 255 },
                Color { r: 9, g: 9, b: 11, a: 255 },
                Color { r: 24, g: 24, b: 27, a: 255 },
            ),
    {
        Theme::new(Color::rgb(255, 255, 255), Color::rgb(9, 9, 11), Color::rgb(24, 24, 27))
    }
}

} // verus!
