//! The terrain quadtree: directions, node handles and the neighbours of a node.

pub mod direction;
pub mod node_neighbours;
pub mod terrain_quadtree_node;
