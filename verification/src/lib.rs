//! Pieces of a globe renderer's logic: the neighbour table of a node in the
//! terrain quadtree, and the pixels of the UV debug texture that is laid over
//! the globe.

pub mod cnquadtree;
pub mod debug_texture;
