//! Colours of the user's style.

use vstd::prelude::*;

verus! {

/// An _unmultiplied_ color value: red, green, blue and alpha channels.
#[derive(Debug, Clone, Copy, PartialEq, Eq, Structural, PartialOrd, Ord, Hash)]
pub struct Color {
    r: u8,
    g: u8,
    b: u8,
    a: u8,
}

impl View for Color {
    /// `(r, g, b, a)`.
    type V = (u8, u8, u8, u8);

    closed spec fn view(&self) -> (u8, u8, u8, u8) {
        (self.r, self.g, self.b, self.a)
    }
}

impl Color {
    /// Opaque white.
    pub fn white() -> (c: Self)
        ensures
            c@ == (255u8, 255u8, 255u8, 255u8),
    {
        Self::rgba(255, 255, 255, 255)
    }

    pub fn rgba(r: u8, g: u8, b: u8, a: u8) -> (c: Self)
        ensures
            c@ == (r, g, b, a),
    {
        Color { r, g, b, a }
    }

    /// An opaque color.
    pub fn rgb(r: u8, g: u8, b: u8) -> (c: Self)
        ensures
            c@ == (r, g, b, u8::MAX),
    {
        Self::rgba(r, g, b, u8::MAX)
    }

    pub fn r(&self) -> (v: u8)
        ensures
            v == self@.0,
    {
        self.r
    }

    pub fn g(&self) -> (v: u8)
        ensures
            v == self@.1,
    {
        self.g
    }

    pub fn b(&self) -> (v: u8)
        ensures
            v == self@.2,
    {
        self.b
    }

    pub fn a(&self) -> (v: u8)
        ensures
            v == self@.3,
    {
        self.a
    }

    /// The channels in the order red, green, blue, alpha.
    pub fn split_rgba(&self) -> (v: [u8; 4])
        ensures
            v@ == seq![self@.0, self@.1, self@.2, self@.3],
    {
        [self.r, self.g, self.b, self.a]
    }

    /// The colour channels in the order red, green, blue.
    pub fn split_rgb(&self) -> (v: [u8; 3])
        ensures
            v@ == seq![self@.0, self@.1, self@.2],
    {
        [self.r, self.g, self.b]
    }

    /// This colour with another alpha.
    pub fn with_a(&self, a: u8) -> (c: Self)
        ensures
            c@ == (self@.0, self@.1, self@.2, a),
    {
        Color { a, ..*self }
    }
}

} // verus!
