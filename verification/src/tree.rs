//! The tree the renderers read: points, nodes, and the whole k-d tree with
//! its global bounds.
//!
//! A node is either internal — a split axis, a split value, and exactly two
//! children — or a leaf holding stored points. The two shapes are the two
//! variants of one enum, so a node carrying both or neither is
//! unrepresentable.

use vstd::prelude::*;
use crate::coord::Coord;

verus! {

/// The text of one coordinate.
pub type CoordText = Seq<char>;

/// The texts of one point's coordinates, in axis order.
pub type PointText = Seq<CoordText>;

/// One stored point: its coordinates in axis order.
pub struct Point {
    pub coords: Vec<Coord>,
}

impl View for Point {
    type V = PointText;

    open spec fn view(&self) -> PointText {
        Seq::new(self.coords@.len(), |i: int| self.coords@[i]@)
    }
}

impl Point {
    /// Every coordinate's text is inspectable.
    pub open spec fn wf(&self) -> bool {
        forall|i: int| 0 <= i < self.coords@.len() ==> (#[trigger] self.coords@[i]).wf()
    }

    pub fn new(coords: Vec<Coord>) -> (p: Point)
        ensures
            p.coords == coords,
            p@.len() == coords@.len(),
    {
        Point { coords }
    }
}

impl Clone for Point {
    fn clone(&self) -> (p: Self)
        ensures
            p@ == self@,
            p.wf() == self.wf(),
    {
        let mut coords: Vec<Coord> = Vec::new();
        let mut i: usize = 0;
        while i < self.coords.len()
            invariant
                i <= self.coords@.len(),
                coords@.len() == i,
                forall|j: int| 0 <= j < i ==> coords@[j]@ == #[trigger] self.coords@[j]@,
            decreases self.coords@.len() - i,
        {
            coords.push(self.coords[i].clone());
            i = i + 1;
        }
        let p = Point { coords };
        proof {
            assert(p@ =~= self@);
            assert forall|j: int| 0 <= j < self.coords@.len() implies (#[trigger] p.coords@[j]).wf()
                == self.coords@[j].wf() by {
                assert(p.coords@[j]@ == self.coords@[j]@);
            }
        }
        p
    }
}

impl PartialEq for Point {
    /// Structural comparison: same number of coordinates, each with the same
    /// text.
    fn eq(&self, other: &Self) -> (r: bool) {
        if self.coords.len() != other.coords.len() {
            proof {
                assert(self@.len() != other@.len());
            }
            return false;
        }
        let mut i: usize = 0;
        while i < self.coords.len()
            invariant
                i <= self.coords@.len(),
                self.coords@.len() == other.coords@.len(),
                forall|j: int| 0 <= j < i ==> (#[trigger] self.coords@[j])@ == other.coords@[j]@,
            decreases self.coords@.len() - i,
        {
            if !(self.coords[i] == other.coords[i]) {
                proof {
                    assert(self@[i as int] != other@[i as int]);
                }
                return false;
            }
            i = i + 1;
        }
        proof {
            assert(self@ =~= other@);
        }
        true
    }
}

impl vstd::std_specs::cmp::PartialEqSpecImpl for Point {
    open spec fn obeys_eq_spec() -> bool {
        true
    }

    open spec fn eq_spec(&self, other: &Self) -> bool {
        self@ == other@
    }
}

/// The views of a sequence of points, in order.
pub open spec fn point_texts(ps: Seq<Point>) -> Seq<PointText> {
    Seq::new(ps.len(), |i: int| ps[i]@)
}

/// A node of the tree: internal with split metadata and two children, or a
/// leaf with stored points.
pub enum KdNode {
    Internal { split_axis: usize, split_value: Coord, left: Box<KdNode>, right: Box<KdNode> },
    Leaf { points: Vec<Point> },
}

/// How many points the subtree stores.
pub open spec fn node_size(n: KdNode) -> nat
    decreases n,
{
    match n {
        KdNode::Internal { left, right, .. } => node_size(*left) + node_size(*right),
        KdNode::Leaf { points } => points@.len(),
    }
}

/// The depth of the subtree: a leaf has height zero.
pub open spec fn node_height(n: KdNode) -> nat
    decreases n,
{
    match n {
        KdNode::Internal { left, right, .. } => 1 + if node_height(*left) >= node_height(*right) {
            node_height(*left)
        } else {
            node_height(*right)
        },
        KdNode::Leaf { .. } => 0,
    }
}

/// How many leaves the subtree has.
pub open spec fn leaf_count(n: KdNode) -> nat
    decreases n,
{
    match n {
        KdNode::Internal { left, right, .. } => leaf_count(*left) + leaf_count(*right),
        KdNode::Leaf { .. } => 1,
    }
}

/// How many internal nodes the subtree has.
pub open spec fn internal_count(n: KdNode) -> nat
    decreases n,
{
    match n {
        KdNode::Internal { left, right, .. } => 1 + internal_count(*left) + internal_count(*right),
        KdNode::Leaf { .. } => 0,
    }
}

/// Every leaf of the subtree stores at least one point.
pub open spec fn leaves_nonempty(n: KdNode) -> bool
    decreases n,
{
    match n {
        KdNode::Internal { left, right, .. } => leaves_nonempty(*left) && leaves_nonempty(*right),
        KdNode::Leaf { points } => points@.len() > 0,
    }
}

pub proof fn lemma_leaves_nonempty_size(n: KdNode)
    requires
        leaves_nonempty(n),
    ensures
        node_size(n) > 0,
    decreases n,
{
    match n {
        KdNode::Internal { left, right, .. } => {
            lemma_leaves_nonempty_size(*left);
        },
        KdNode::Leaf { .. } => {},
    }
}

/// Every stored point of the subtree has inspectable coordinate texts.
pub open spec fn points_wf(n: KdNode) -> bool
    decreases n,
{
    match n {
        KdNode::Internal { left, right, .. } => points_wf(*left) && points_wf(*right),
        KdNode::Leaf { points } => forall|i: int|
            0 <= i < points@.len() ==> (#[trigger] points@[i]).wf(),
    }
}

/// Every internal node of the subtree splits on an axis below `dims`.
pub open spec fn axes_below(n: KdNode, dims: nat) -> bool
    decreases n,
{
    match n {
        KdNode::Internal { split_axis, left, right, .. } => split_axis < dims && axes_below(
            *left,
            dims,
        ) && axes_below(*right, dims),
        KdNode::Leaf { .. } => true,
    }
}

/// Every stored point of the subtree has exactly `dims` coordinates.
pub open spec fn point_widths(n: KdNode, dims: nat) -> bool
    decreases n,
{
    match n {
        KdNode::Internal { left, right, .. } => point_widths(*left, dims) && point_widths(
            *right,
            dims,
        ),
        KdNode::Leaf { points } => forall|i: int|
            0 <= i < points@.len() ==> (#[trigger] points@[i])@.len() == dims,
    }
}

/// Whether the subtree stores no points at all. A subtree of size zero
/// renders as the bare empty marker in the shape dump, and draws nothing in
/// the diagram.
pub fn subtree_is_empty(n: &KdNode) -> (r: bool)
    ensures
        r == (node_size(*n) == 0),
    decreases node_height(*n),
{
    match n {
        KdNode::Internal { left, right, .. } => subtree_is_empty(left) && subtree_is_empty(right),
        KdNode::Leaf { points } => points.len() == 0,
    }
}

/// The whole tree as the renderers consume it: its dimensionality, its global
/// bounding box (minimum and maximum coordinate per axis), and the root node.
pub struct KdTree {
    pub dimensions: usize,
    pub min_bounds: Point,
    pub max_bounds: Point,
    pub root: KdNode,
}

impl KdTree {
    /// The documented invariants of an already-built tree: one coordinate per
    /// axis in each global bound, every split axis below the dimensionality,
    /// every stored point with one coordinate per axis, and every coordinate
    /// text inspectable.
    pub open spec fn wf(&self) -> bool {
        &&& self.dimensions >= 1
        &&& self.min_bounds@.len() == self.dimensions
        &&& self.max_bounds@.len() == self.dimensions
        &&& self.min_bounds.wf()
        &&& self.max_bounds.wf()
        &&& axes_below(self.root, self.dimensions as nat)
        &&& point_widths(self.root, self.dimensions as nat)
        &&& points_wf(self.root)
    }
}

} // verus!
