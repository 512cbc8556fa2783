use houtu::cnquadtree::direction::Direction;
use houtu::cnquadtree::node_neighbours::NodeNeighbours;
use houtu::cnquadtree::terrain_quadtree_node::TerrainQuadtreeNode;

const ALL: [Direction; 4] = [Direction::North, Direction::East, Direction::South, Direction::West];

#[test]
fn default_has_no_neighbour_on_any_side() {
    let n = NodeNeighbours::default();
    for dir in ALL {
        assert_eq!(n[dir], TerrainQuadtreeNode::Empty);
    }
}

#[test]
fn index_mut_writes_only_its_side() {
    for (i, dir) in ALL.iter().enumerate() {
        let mut n = NodeNeighbours::default();
        n[*dir] = TerrainQuadtreeNode::Leaf(i + 10);
        for other in ALL {
            if other == *dir {
                assert_eq!(n[other], TerrainQuadtreeNode::Leaf(i + 10));
            } else {
                assert_eq!(n[other], TerrainQuadtreeNode::Empty);
            }
        }
    }
}

#[test]
fn each_side_holds_its_own_neighbour() {
    let mut n = NodeNeighbours::default();
    n[Direction::North] = TerrainQuadtreeNode::Internal(1);
    n[Direction::East] = TerrainQuadtreeNode::Leaf(2);
    n[Direction::South] = TerrainQuadtreeNode::Internal(3);
    n[Direction::West] = TerrainQuadtreeNode::Leaf(4);
    assert_eq!(n[Direction::North], TerrainQuadtreeNode::Internal(1));
    assert_eq!(n[Direction::East], TerrainQuadtreeNode::Leaf(2));
    assert_eq!(n[Direction::South], TerrainQuadtreeNode::Internal(3));
    assert_eq!(n[Direction::West], TerrainQuadtreeNode::Leaf(4));
}

#[test]
fn overwriting_a_side_keeps_the_last_write() {
    let mut n = NodeNeighbours::default();
    n[Direction::South] = TerrainQuadtreeNode::Leaf(7);
    n[Direction::South] = TerrainQuadtreeNode::Internal(8);
    assert_eq!(n[Direction::South], TerrainQuadtreeNode::Internal(8));
    n[Direction::South] = TerrainQuadtreeNode::Empty;
    assert!(n == NodeNeighbours::default());
}

#[test]
fn tables_that_read_alike_are_equal() {
    let mut a = NodeNeighbours::default();
    let mut b = NodeNeighbours::default();
    a[Direction::West] = TerrainQuadtreeNode::Leaf(5);
    a[Direction::North] = TerrainQuadtreeNode::Internal(6);
    b[Direction::North] = TerrainQuadtreeNode::Internal(6);
    b[Direction::West] = TerrainQuadtreeNode::Leaf(5);
    assert!(a == b);
    b[Direction::East] = TerrainQuadtreeNode::Leaf(0);
    assert!(a != b);
}

#[test]
fn writing_back_a_side_changes_nothing() {
    let mut n = NodeNeighbours::default();
    n[Direction::East] = TerrainQuadtreeNode::Leaf(9);
    let before = n;
    let east = n[Direction::East];
    n[Direction::East] = east;
    assert!(n == before);
}
