//! Theme palette as plain channel values, fixed here so every build target
//! renders the same colors; the UI shell converts them to its toolkit's
//! color type.

use vstd::prelude::*;

verus! {

/// An sRGBA color, one byte per channel, alpha premultiplied.
pub struct Rgba {
    pub r: u8,
    pub g: u8,
    pub b: u8,
    pub a: u8,
}

impl Rgba {
    /// The red channel.
    pub fn r(&self) -> (v: u8)
        ensures
            v == self.r,
    {
        self.r
    }

    /// The green channel.
    pub fn g(&self) -> (v: u8)
        ensures
            v == self.g,
    {
        self.g
    }

    /// The blue channel.
    pub fn b(&self) -> (v: u8)
        ensures
            v == self.b,
    {
        self.b
    }

    /// The alpha channel; zero means fully transparent.
    pub fn a(&self) -> (v: u8)
        ensures
            v == self.a,
    {
        self.a
    }

    /// A fully opaque color from its red, green, and blue channels.
    pub fn opaque(r: u8, g: u8, b: u8) -> (c: Rgba)
        ensures
            c == (Rgba { r, g, b, a: 255u8 }),
    {
        Rgba { r, g, b, a: 255 }
    }

    /// A color from all four channels, alpha already premultiplied.
    pub fn premultiplied(r: u8, g: u8, b: u8, a: u8) -> (c: Rgba)
        ensures
            c == (Rgba { r, g, b, a }),
    {
        Rgba { r, g, b, a }
    }
}

/// Primary text color (white).
pub fn text_primary() -> (c: Rgba)
    ensures
        c == (Rgba { r: 255u8, g: 255u8, b: 255u8, a: 255u8 }),
{
    Rgba::opaque(255, 255, 255)
}

/// Secondary text color (light gray).
pub fn text_secondary() -> (c: Rgba)
    ensures
        c == (Rgba { r: 200u8, g: 200u8, b: 200u8, a: 255u8 }),
{
    Rgba::opaque(200, 200, 200)
}

/// Muted text color (darker gray).
pub fn text_muted() -> (c: Rgba)
    ensures
        c == (Rgba { r: 210u8, g: 210u8, b: 210u8, a: 255u8 }),
{
    Rgba::opaque(210, 210, 210)
}

/// Dark text color, for light backgrounds.
pub fn text_dark() -> (c: Rgba)
    ensures
        c == (Rgba { r: 30u8, g: 30u8, b: 35u8, a: 255u8 }),
{
    Rgba::opaque(30, 30, 35)
}

/// Accent text color (blue).
pub fn text_accent() -> (c: Rgba)
    ensures
        c == (Rgba { r: 59u8, g: 154u8, b: 255u8, a: 255u8 }),
{
    Rgba::opaque(59, 154, 255)
}

/// Semi-transparent white text.
pub fn text_white_alpha_235() -> (c: Rgba)
    ensures
        c == (Rgba { r: 235u8, g: 235u8, b: 235u8, a: 235u8 }),
{
    Rgba::premultiplied(235, 235, 235, 235)
}

/// Semi-transparent white text, lighter.
pub fn text_white_alpha_180() -> (c: Rgba)
    ensures
        c == (Rgba { r: 180u8, g: 180u8, b: 180u8, a: 180u8 }),
{
    Rgba::premultiplied(180, 180, 180, 180)
}

/// Main app background.
pub fn background_app() -> (c: Rgba)
    ensures
        c == (Rgba { r: 9u8, g: 11u8, b: 19u8, a: 255u8 }),
{
    Rgba::opaque(9, 11, 19)
}

/// Navigation bar background.
pub fn background_nav_bar() -> (c: Rgba)
    ensures
        c == (Rgba { r: 5u8, g: 7u8, b: 16u8, a: 230u8 }),
{
    Rgba::premultiplied(5, 7, 16, 230)
}

/// Featured section background.
pub fn background_featured() -> (c: Rgba)
    ensures
        c == (Rgba { r: 18u8, g: 24u8, b: 39u8, a: 255u8 }),
{
    Rgba::opaque(18, 24, 39)
}

/// Card background.
pub fn background_card() -> (c: Rgba)
    ensures
        c == (Rgba { r: 26u8, g: 28u8, b: 38u8, a: 255u8 }),
{
    Rgba::opaque(26, 28, 38)
}

/// Card preview placeholder background.
pub fn background_card_preview() -> (c: Rgba)
    ensures
        c == (Rgba { r: 35u8, g: 40u8, b: 55u8, a: 255u8 }),
{
    Rgba::opaque(35, 40, 55)
}

/// Search field background.
pub fn background_search_field() -> (c: Rgba)
    ensures
        c == (Rgba { r: 240u8, g: 240u8, b: 245u8, a: 255u8 }),
{
    Rgba::opaque(240, 240, 245)
}

/// Tag chip background.
pub fn background_tag_chip() -> (c: Rgba)
    ensures
        c == (Rgba { r: 100u8, g: 100u8, b: 100u8, a: 100u8 }),
{
    Rgba::premultiplied(100, 100, 100, 100)
}

/// Card border color.
pub fn stroke_card() -> (c: Rgba)
    ensures
        c == (Rgba { r: 38u8, g: 45u8, b: 66u8, a: 255u8 }),
{
    Rgba::opaque(38, 45, 66)
}

/// Button border, semi-transparent white.
pub fn stroke_button() -> (c: Rgba)
    ensures
        c == (Rgba { r: 180u8, g: 180u8, b: 180u8, a: 180u8 }),
{
    Rgba::premultiplied(180, 180, 180, 180)
}

} // verus!
