use vstd::prelude::*;

verus! {

/// The side a piece belongs to; also the side whose turn it is to move.
#[derive(Copy, Clone, PartialEq, Eq, Structural, Debug)]
pub enum Color {
    White,
    Black,
}

impl Color {
    /// The opposing side.
    pub open spec fn spec_other(&self) -> Color {
        match self {
            Color::White => Color::Black,
            Color::Black => Color::White,
        }
    }

    /// The opposing side: white for black, black for white.
    #[verifier::when_used_as_spec(spec_other)]
    pub fn other(&self) -> (r: Color)
        ensures
            r == self.spec_other(),
    {
        match *self {
            Color::White => Color::Black,
            Color::Black => Color::White,
        }
    }
}

} // verus!
