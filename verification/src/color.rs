//! Grid stroke colours and the premultiplied channel values handed to the painter.

use vstd::prelude::*;

verus! {

/// Alpha of every grid stroke: translucent, so the image stays readable under the grid.
pub const GRID_ALPHA: u8 = 180;

/// `egui::Color32` (defined in `ecolor`), carried through verified code as an opaque value.
#[verifier::external_type_specification]
#[verifier::external_body]
pub struct ExColor32(egui::Color32);

/// The colour that `egui::Color32::from_rgba_premultiplied` builds from four channel values.
pub uninterp spec fn premultiplied_color32(r: u8, g: u8, b: u8, a: u8) -> egui::Color32;

/// Calls `egui::Color32::from_rgba_premultiplied`.
///
/// Trusted: the result is the colour that constructor makes of exactly these four channels,
/// in this order. The constructor stores them unchanged and cannot fail.
#[verifier::external_body]
fn color32_from_premultiplied(r: u8, g: u8, b: u8, a: u8) -> (c: egui::Color32)
    ensures
        c == premultiplied_color32(r, g, b, a),
{
    egui::Color32::from_rgba_premultiplied(r, g, b, a)
}

/// Four 8-bit channels in the painter's convention: colour already multiplied by alpha.
#[derive(Clone, Copy, Debug, PartialEq, Eq, Structural)]
pub struct Rgba {
    pub r: u8,
    pub g: u8,
    pub b: u8,
    pub a: u8,
}

impl Rgba {
    /// The painter colour of these channels.
    pub open spec fn color32(self) -> egui::Color32 {
        premultiplied_color32(self.r, self.g, self.b, self.a)
    }

    /// Black at the given alpha.
    pub open spec fn black(alpha: u8) -> Rgba {
        Rgba { r: 0, g: 0, b: 0, a: alpha }
    }

    /// The same level on all four channels: a tint that fades and greys together.
    pub open spec fn uniform(level: u8) -> Rgba {
        Rgba { r: level, g: level, b: level, a: level }
    }

    /// Converts to the painter's colour type.
    pub fn to_color32(&self) -> (c: egui::Color32)
        ensures
            c == self.color32(),
    {
        color32_from_premultiplied(self.r, self.g, self.b, self.a)
    }
}

/// The colours a grid can be stroked in.
#[derive(Clone, Copy, Debug, PartialEq, Eq, Structural)]
pub enum GridColor {
    Red,
    Cyan,
    Green,
    White,
    Black,
}

impl GridColor {
    /// The channel values of each colour.
    pub open spec fn channels(self) -> Rgba {
        match self {
            GridColor::Red => Rgba { r: 255, g: 0, b: 0, a: GRID_ALPHA },
            GridColor::Cyan => Rgba { r: 0, g: 255, b: 255, a: GRID_ALPHA },
            GridColor::Green => Rgba { r: 0, g: 255, b: 0, a: GRID_ALPHA },
            GridColor::White => Rgba { r: 255, g: 255, b: 255, a: GRID_ALPHA },
            GridColor::Black => Rgba { r: 0, g: 0, b: 0, a: GRID_ALPHA },
        }
    }

    /// The name shown for each colour.
    pub open spec fn label(self) -> Seq<char> {
        match self {
            GridColor::Red => "Red"@,
            GridColor::Cyan => "Cyan"@,
            GridColor::Green => "Green"@,
            GridColor::White => "White"@,
            GridColor::Black => "Black"@,
        }
    }

    /// The choices in the order the colour menu lists them.
    pub open spec fn choices() -> Seq<GridColor> {
        seq![
            GridColor::Red,
            GridColor::Cyan,
            GridColor::Green,
            GridColor::White,
            GridColor::Black,
        ]
    }

    /// Channel values of this colour.
    pub fn rgba(&self) -> (c: Rgba)
        ensures
            c == self.channels(),
            c.a == GRID_ALPHA,
    {
        match self {
            GridColor::Red => Rgba { r: 255, g: 0, b: 0, a: GRID_ALPHA },
            GridColor::Cyan => Rgba { r: 0, g: 255, b: 255, a: GRID_ALPHA },
            GridColor::Green => Rgba { r: 0, g: 255, b: 0, a: GRID_ALPHA },
            GridColor::White => Rgba { r: 255, g: 255, b: 255, a: GRID_ALPHA },
            GridColor::Black => Rgba { r: 0, g: 0, b: 0, a: GRID_ALPHA },
        }
    }

    /// The painter colour of this grid colour.
    pub fn to_color32(&self) -> (c: egui::Color32)
        ensures
            c == self.channels().color32(),
    {
        self.rgba().to_color32()
    }

    /// Display name of this colour.
    pub fn name(&self) -> (s: &'static str)
        ensures
            s@ == self.label(),
    {
        match self {
            GridColor::Red => "Red",
            GridColor::Cyan => "Cyan",
            GridColor::Green => "Green",
            GridColor::White => "White",
            GridColor::Black => "Black",
        }
    }

    /// All choices, in menu order.
    pub fn all() -> (list: [GridColor; 5])
        ensures
            list@ == GridColor::choices(),
    {
        [GridColor::Red, GridColor::Cyan, GridColor::Green, GridColor::White, GridColor::Black]
    }
}

} // verus!
