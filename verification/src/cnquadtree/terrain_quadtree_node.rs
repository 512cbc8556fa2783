use vstd::prelude::*;

verus! {

/// A handle on a node of the terrain quadtree, as a neighbour table holds it:
/// an internal node or a leaf, each by its index in the quadtree's storage,
/// or no node at all (`Empty`).
#[derive(Clone, Copy, Debug, PartialEq, Eq, Structural)]
pub enum TerrainQuadtreeNode {
    Internal(usize),
    Leaf(usize),
    Empty,
}

} // verus!
