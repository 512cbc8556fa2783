use vstd::prelude::*;

use super::direction::Direction;
use super::terrain_quadtree_node::TerrainQuadtreeNode;

verus! {

/// The neighbours of a quadtree node, one on each side.
#[derive(Clone, Copy, PartialEq, Eq, Structural)]
pub struct NodeNeighbours {
    pub(super) north: TerrainQuadtreeNode,
    pub(super) east: TerrainQuadtreeNode,
    pub(super) south: TerrainQuadtreeNode,
    pub(super) west: TerrainQuadtreeNode,
}

impl NodeNeighbours {
    /// The neighbour on side `dir`.
    pub closed spec fn at(self, dir: Direction) -> TerrainQuadtreeNode {
        match dir {
            Direction::North => self.north,
            Direction::East => self.east,
            Direction::South => self.south,
            Direction::West => self.west,
        }
    }

    /// The same table with the neighbour on side `dir` replaced by `node`.
    pub closed spec fn with(self, dir: Direction, node: TerrainQuadtreeNode) -> NodeNeighbours {
        match dir {
            Direction::North => NodeNeighbours { north: node, ..self },
            Direction::East => NodeNeighbours { east: node, ..self },
            Direction::South => NodeNeighbours { south: node, ..self },
            Direction::West => NodeNeighbours { west: node, ..self },
        }
    }
}

/// Replacing the neighbour on one side changes what that side reads, to the
/// new neighbour, and leaves every other side as it was.
pub proof fn lemma_at_with(n: NodeNeighbours, dir: Direction, node: TerrainQuadtreeNode, side: Direction)
    ensures
        n.with(dir, node).at(side) == (if side == dir { node } else { n.at(side) }),
{
}

/// Two neighbour tables that read alike on every side are the same table:
/// the four sides are the whole of it.
pub proof fn lemma_sides_determine(a: NodeNeighbours, b: NodeNeighbours)
    requires
        forall|dir: Direction| #[trigger] a.at(dir) == b.at(dir),
    ensures
        a == b,
{
    assert(a.at(Direction::North) == b.at(Direction::North));
    assert(a.at(Direction::East) == b.at(Direction::East));
    assert(a.at(Direction::South) == b.at(Direction::South));
    assert(a.at(Direction::West) == b.at(Direction::West));
}

/// Writing back what a side already holds leaves the table unchanged.
pub proof fn lemma_with_same(n: NodeNeighbours, dir: Direction)
    ensures
        n.with(dir, n.at(dir)) == n,
{
}

impl Default for NodeNeighbours {
    fn default() -> (r: Self)
        ensures
            forall|dir: Direction| #[trigger] r.at(dir) == TerrainQuadtreeNode::Empty,
    {
        Self {
            north: TerrainQuadtreeNode::Empty,
            east: TerrainQuadtreeNode::Empty,
            south: TerrainQuadtreeNode::Empty,
            west: TerrainQuadtreeNode::Empty,
        }
    }
}

impl core::ops::Index<Direction> for NodeNeighbours {
    type Output = TerrainQuadtreeNode;

    fn index(&self, dir: Direction) -> (r: &TerrainQuadtreeNode)
        ensures
            *r == self.at(dir),
    {
        match dir {
            Direction::North => &self.north,
            Direction::East => &self.east,
            Direction::South => &self.south,
            Direction::West => &self.west,
        }
    }
}

impl vstd::std_specs::core::IndexSpecImpl<Direction> for NodeNeighbours {
    open spec fn index_req(&self, dir: &Direction) -> bool {
        true
    }
}

impl core::ops::IndexMut<Direction> for NodeNeighbours {
    fn index_mut(&mut self, dir: Direction) -> (r: &mut TerrainQuadtreeNode)
        ensures
            *r == old(self).at(dir),
            *final(self) == old(self).with(dir, *final(r)),
    {
        match dir {
            Direction::North => &mut self.north,
            Direction::East => &mut self.east,
            Direction::South => &mut self.south,
            Direction::West => &mut self.west,
        }
    }
}

} // verus!
