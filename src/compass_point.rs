//! The side of a node that an edge is attached to.

use vstd::prelude::*;

verus! {

#[derive(Clone, Copy, Debug, PartialEq, Eq, Structural)]
pub enum CompassPoint {
    North,
    NorthEast,
    East,
    SouthEast,
    South,
    SouthWest,
    West,
    NorthWest,
    Center,
    Adjacent,
}

impl CompassPoint {
    /// The code under which the point is written.
    pub open spec fn text(&self) -> Seq<char> {
        match self {
            CompassPoint::North => seq!['n'],
            CompassPoint::NorthEast => seq!['n', 'e'],
            CompassPoint::East => seq!['e'],
            CompassPoint::SouthEast => seq!['s', 'e'],
            CompassPoint::South => seq!['s'],
            CompassPoint::SouthWest => seq!['s', 'w'],
            CompassPoint::West => seq!['w'],
            CompassPoint::NorthWest => seq!['n', 'w'],
            CompassPoint::Center => seq!['c'],
            CompassPoint::Adjacent => seq!['_'],
        }
    }

    pub fn as_str(&self) -> (r: &'static str)
        ensures
            r@ == self.text(),
    {
        proof {
            reveal_strlit("n");
            reveal_strlit("ne");
            reveal_strlit("e");
            reveal_strlit("se");
            reveal_strlit("s");
            reveal_strlit("sw");
            reveal_strlit("w");
            reveal_strlit("nw");
            reveal_strlit("c");
            reveal_strlit("_");
        }
        match self {
            CompassPoint::North => "n",
            CompassPoint::NorthEast => "ne",
            CompassPoint::East => "e",
            CompassPoint::SouthEast => "se",
            CompassPoint::South => "s",
            CompassPoint::SouthWest => "sw",
            CompassPoint::West => "w",
            CompassPoint::NorthWest => "nw",
            CompassPoint::Center => "c",
            CompassPoint::Adjacent => "_",
        }
    }
}

} // verus!
