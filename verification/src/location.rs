use vstd::prelude::*;

use crate::terminal::{sat_sub, Position};

verus! {

/// A cell by its column `x` and row `y`.
#[derive(Clone, Copy, Debug, PartialEq, Eq, Structural)]
pub struct Location {
    pub x: usize,
    pub y: usize,
}

impl Default for Location {
    fn default() -> (r: Self)
        ensures
            r == (Location { x: 0, y: 0 }),
    {
        Location { x: 0, y: 0 }
    }
}

impl From<Location> for Position {
    fn from(loc: Location) -> (r: Self) {
        Position { col: loc.x, row: loc.y }
    }
}

impl vstd::std_specs::convert::FromSpecImpl<Location> for Position {
    open spec fn obeys_from_spec() -> bool {
        true
    }

    open spec fn from_spec(loc: Location) -> Position {
        Position { col: loc.x, row: loc.y }
    }
}

impl Location {
    /// How far this cell lies right of and below `other`, zero where it does not.
    pub fn diff(&self, other: &Self) -> (r: Self)
        ensures
            r.x == sat_sub(self.x, other.x),
            r.y == sat_sub(self.y, other.y),
    {
        Self { x: self.x.saturating_sub(other.x), y: self.y.saturating_sub(other.y) }
    }
}

} // verus!
