//! Drawing, as data. Nothing here touches a display: states say what is to be
//! drawn, and the host carries the commands out in order.

use crate::assets::Blit;
use vstd::prelude::*;

verus! {

/// An opaque colour of eight bits per channel.
#[derive(Clone, Copy, Debug, PartialEq, Eq, Structural)]
pub struct Color {
    pub r: u8,
    pub g: u8,
    pub b: u8,
    pub a: u8,
}

impl Color {
    /// The fully opaque colour with these channels.
    pub open spec fn spec_from_rgb(r: u8, g: u8, b: u8) -> Color {
        Color { r, g, b, a: 255 }
    }

    /// The fully opaque colour with these channels.
    #[verifier::when_used_as_spec(spec_from_rgb)]
    pub fn from_rgb(r: u8, g: u8, b: u8) -> (color: Color)
        ensures
            color == Self::spec_from_rgb(r, g, b),
    {
        Color { r, g, b, a: 255 }
    }
}

/// Where a line of text lies relative to its anchor.
#[derive(Clone, Copy, Debug, PartialEq, Eq, Structural)]
pub enum FontAlign {
    Left,
    Centre,
    Right,
}

/// One line of text to be drawn with the host's font.
#[derive(Clone, Debug, PartialEq, Eq)]
pub struct Text {
    pub color: Color,
    pub x: i32,
    pub y: i32,
    pub align: FontAlign,
    pub text: String,
}

/// One thing for the host to draw.
#[derive(Clone, Debug, PartialEq, Eq)]
pub enum DrawCommand {
    /// A line of text.
    Text(Text),
    /// A tile of the atlas.
    Tile(Blit),
}

/// The command that draws the words `content` in `color`, anchored at
/// `position`.
pub fn text(color: Color, position: (i32, i32), align: FontAlign, content: &str) -> (command:
    DrawCommand)
    ensures
        command matches DrawCommand::Text(line) && {
            &&& line.color == color
            &&& line.x == position.0
            &&& line.y == position.1
            &&& line.align == align
            &&& line.text@ == content@
        },
{
    DrawCommand::Text(
        Text { color, x: position.0, y: position.1, align, text: content.to_owned() },
    )
}

} // verus!
