use vstd::prelude::*;

verus! {

/// One of the four sides of a quadtree node.
#[derive(Clone, Copy, Debug, PartialEq, Eq, Structural)]
pub enum Direction {
    North,
    East,
    South,
    West,
}

} // verus!
