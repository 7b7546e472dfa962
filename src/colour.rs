use vstd::prelude::*;

verus! {

/// The fill colour of a widget's surface.
#[derive(Debug, Clone, Copy, PartialEq, Eq, Structural)]
pub enum Colour {
    Rgb(u8, u8, u8),
}

impl Colour {
    /// Opaque white, the colour a stack gets when none is given.
    pub fn white() -> (r: Colour)
        ensures
            r == Colour::Rgb(255, 255, 255),
    {
        Colour::Rgb(255, 255, 255)
    }
}

} // verus!
