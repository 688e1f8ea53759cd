//! Two-dimensional positions in character cells.
use vstd::prelude::*;

verus! {

/// A position or extent in character cells: column first, row second.
#[derive(Clone, Copy, Debug, PartialEq, Eq, Hash, Structural)]
pub struct Coord(pub usize, pub usize);

impl Coord {
    /// The column (horizontal) component.
    pub fn col(&self) -> (c: usize)
        ensures
            c == self.0,
    {
        self.0
    }

    /// The row (vertical) component.
    pub fn row(&self) -> (r: usize)
        ensures
            r == self.1,
    {
        self.1
    }

    /// Componentwise sum.
    pub fn add(self, rhs: Coord) -> (r: Coord)
        requires
            self.0 + rhs.0 <= usize::MAX,
            self.1 + rhs.1 <= usize::MAX,
        ensures
            r.0 == self.0 + rhs.0,
            r.1 == self.1 + rhs.1,
    {
        Coord(self.0 + rhs.0, self.1 + rhs.1)
    }

    /// Componentwise difference.
    pub fn sub(self, rhs: Coord) -> (r: Coord)
        requires
            rhs.0 <= self.0,
            rhs.1 <= self.1,
        ensures
            r.0 == self.0 - rhs.0,
            r.1 == self.1 - rhs.1,
    {
        Coord(self.0 - rhs.0, self.1 - rhs.1)
    }

    /// The origin.
    pub fn zero() -> (r: Coord)
        ensures
            r.0 == 0,
            r.1 == 0,
    {
        Coord(0, 0)
    }

    /// Whether both components are zero.
    pub fn is_zero(&self) -> (r: bool)
        ensures
            r == (self.0 == 0 && self.1 == 0),
    {
        self.0 == 0 && self.1 == 0
    }
}

/// Lifts a scalar to a pure-column coordinate.
pub trait ToCol {
    /// The value this coordinate is built from.
    spec fn spec_col(&self) -> usize;

    /// A coordinate with this value as column and row zero.
    fn to_col(&self) -> (r: Coord)
        ensures
            r.0 == self.spec_col(),
            r.1 == 0,
    ;
}

impl ToCol for usize {
    open spec fn spec_col(&self) -> usize {
        *self
    }

    fn to_col(&self) -> (r: Coord) {
        Coord(*self, 0)
    }
}

/// Lifts a scalar to a pure-row coordinate.
pub trait ToRow {
    /// The value this coordinate is built from.
    spec fn spec_row(&self) -> usize;

    /// A coordinate with this value as row and column zero.
    fn to_row(&self) -> (r: Coord)
        ensures
            r.0 == 0,
            r.1 == self.spec_row(),
    ;
}

impl ToRow for usize {
    open spec fn spec_row(&self) -> usize {
        *self
    }

    fn to_row(&self) -> (r: Coord) {
        Coord(0, *self)
    }
}

} // verus!
