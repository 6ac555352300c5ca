//! The TikZ picture of a 2-dimensional tree's spatial subdivision.
//!
//! The picture is specified as a sequence of draw commands (`DiagChunk`),
//! each with an exact text. An internal node draws one split line spanning
//! its rectangle and recurses with the rectangle narrowed to the split value
//! on the split axis — the left child keeps the lower part, the right child
//! the upper part; a leaf draws one circle marker per stored point. A
//! label-orientation flag decides on which side of a split line its label
//! sits: the left child is entered with the flag raised, the right child
//! with it cleared, so that two stacked labels on the same axis land on
//! opposite sides.

use vstd::prelude::*;
use vstd::string::StringExecFns;
use crate::coord::Coord;
use crate::emit::{concat_texts, lemma_concat_texts_add, lemma_concat_texts_singleton};
use crate::tree::{
    CoordText, KdNode, KdTree, Point, PointText, axes_below, node_height, node_size, point_texts,
    point_widths, subtree_is_empty,
};

verus! {

/// Why a diagram cannot be produced.
#[derive(Clone, Copy, Debug, PartialEq, Eq, Structural)]
pub enum RenderError {
    /// Only 2-dimensional trees can be drawn as a subdivision picture.
    UnsupportedDimensionality,
}

/// The axis-aligned rectangle currently attributed to a subtree.
pub struct Bounds {
    pub min_x: Coord,
    pub max_x: Coord,
    pub min_y: Coord,
    pub max_y: Coord,
}

/// A rectangle at the spec level: the four bound coordinates' texts.
pub struct BoundsView {
    pub min_x: CoordText,
    pub max_x: CoordText,
    pub min_y: CoordText,
    pub max_y: CoordText,
}

impl View for Bounds {
    type V = BoundsView;

    open spec fn view(&self) -> BoundsView {
        BoundsView {
            min_x: self.min_x@,
            max_x: self.max_x@,
            min_y: self.min_y@,
            max_y: self.max_y@,
        }
    }
}

/// The rectangle handed to an internal node's left child: the bound at the
/// upper side of the split axis moves down to the split value.
pub open spec fn first_child_bounds(b: BoundsView, axis: nat, v: CoordText) -> BoundsView {
    if axis == 0 {
        BoundsView { max_x: v, ..b }
    } else {
        BoundsView { max_y: v, ..b }
    }
}

/// The rectangle handed to an internal node's right child: the bound at the
/// lower side of the split axis moves up to the split value.
pub open spec fn second_child_bounds(b: BoundsView, axis: nat, v: CoordText) -> BoundsView {
    if axis == 0 {
        BoundsView { min_x: v, ..b }
    } else {
        BoundsView { min_y: v, ..b }
    }
}

/// One draw command of the picture's payload.
pub enum DiagChunk {
    /// One split line across the current rectangle, with its label. `lo` and
    /// `hi` are the rectangle's bounds on the axis the line runs along.
    SplitLine { axis: nat, value: CoordText, lo: CoordText, hi: CoordText, flip: bool },
    /// One draw command marking every stored point of a leaf.
    LeafMarks { points: Seq<PointText> },
}

/// The label attached at a split line's starting point: only a raised flag
/// puts the label there (below a vertical line, left of a horizontal one).
pub open spec fn label_at_start(axis: nat, flip: bool, value: CoordText) -> Seq<char> {
    if axis == 0 {
        if flip {
            " node[anchor=north, align=flush center] {{\\tiny L} x {\\tiny R} \\\\[-4pt] "@
                + value + "}"@
        } else {
            Seq::empty()
        }
    } else {
        if flip {
            " node[anchor=east, align=flush right] {{\\tiny R} \\\\[-2pt] "@ + value
                + " y \\\\[-2pt] {\\tiny L}}"@
        } else {
            Seq::empty()
        }
    }
}

/// The label attached at a split line's end point: only a cleared flag puts
/// the label there (above a vertical line, right of a horizontal one).
pub open spec fn label_at_end(axis: nat, flip: bool, value: CoordText) -> Seq<char> {
    if axis == 0 {
        if flip {
            Seq::empty()
        } else {
            " node[anchor=south, align=flush center] {"@ + value
                + " \\\\[-4pt] {\\tiny L} x {\\tiny R}}"@
        }
    } else {
        if flip {
            Seq::empty()
        } else {
            " node[anchor=west, align=flush left] {{\\tiny R} \\\\[-2pt] y "@ + value
                + " \\\\[-2pt] {\\tiny L}}"@
        }
    }
}

/// The draw command of one split line: a vertical line at the split value
/// over the rectangle's full height (axis 0), or a horizontal line at the
/// split value over its full width (axis 1), labelled by the flag rule.
pub open spec fn split_line_text(
    axis: nat,
    value: CoordText,
    lo: CoordText,
    hi: CoordText,
    flip: bool,
) -> Seq<char> {
    if axis == 0 {
        "\\draw ("@ + value + ", "@ + lo + ")"@ + label_at_start(axis, flip, value) + " -- ("@
            + value + ", "@ + hi + ")"@ + label_at_end(axis, flip, value) + ";\n"@
    } else {
        "\\draw ("@ + lo + ", "@ + value + ")"@ + label_at_start(axis, flip, value) + " -- ("@
            + hi + ", "@ + value + ")"@ + label_at_end(axis, flip, value) + ";\n"@
    }
}

/// One point's circle marker with its coordinate label.
pub open spec fn mark_text(p: PointText) -> Seq<char> {
    "\n    ("@ + p[0] + ", "@ + p[1]
        + ") circle[radius=0.05] node[anchor=north, black!60] {\\footnotesize ("@ + p[0] + ", "@
        + p[1] + ")}"@
}

/// All markers of a leaf, in storage order.
pub open spec fn marks_text(ps: Seq<PointText>) -> Seq<char>
    decreases ps.len(),
{
    if ps.len() == 0 {
        Seq::empty()
    } else {
        marks_text(ps.drop_last()) + mark_text(ps.last())
    }
}

/// The exact text of one draw command.
pub open spec fn diag_chunk_text(c: DiagChunk) -> Seq<char> {
    match c {
        DiagChunk::SplitLine { axis, value, lo, hi, flip } => split_line_text(
            axis,
            value,
            lo,
            hi,
            flip,
        ),
        DiagChunk::LeafMarks { points } => "\\draw[fill=black]"@ + marks_text(points) + ";\n"@,
    }
}

pub open spec fn diag_chunk_text_fn() -> spec_fn(DiagChunk) -> Seq<char> {
    |c: DiagChunk| diag_chunk_text(c)
}

/// The draw commands a subtree emits inside the given rectangle. A subtree
/// of size zero draws nothing; an internal node draws its split line and
/// then its children, the left one inside the lower part with the flag
/// raised, the right one inside the upper part with the flag cleared.
pub open spec fn diag_chunks(n: KdNode, b: BoundsView, flip: bool) -> Seq<DiagChunk>
    decreases n,
{
    if node_size(n) == 0 {
        Seq::empty()
    } else {
        match n {
            KdNode::Internal { split_axis, split_value, left, right } => {
                let axis = split_axis as nat;
                let v = split_value@;
                if axis == 0 || axis == 1 {
                    seq![
                        (DiagChunk::SplitLine {
                            axis,
                            value: v,
                            lo: if axis == 0 { b.min_y } else { b.min_x },
                            hi: if axis == 0 { b.max_y } else { b.max_x },
                            flip,
                        }),
                    ] + diag_chunks(*left, first_child_bounds(b, axis, v), true) + diag_chunks(
                        *right,
                        second_child_bounds(b, axis, v),
                        false,
                    )
                } else {
                    Seq::empty()
                }
            },
            KdNode::Leaf { points } => seq![(DiagChunk::LeafMarks { points: point_texts(points@) })],
        }
    }
}

/// The picture's payload for a subtree: its draw commands' texts in order.
pub open spec fn diag_text(n: KdNode, b: BoundsView, flip: bool) -> Seq<char> {
    concat_texts(diag_chunks(n, b, flip), diag_chunk_text_fn())
}

pub proof fn lemma_diag_text_empty(n: KdNode, b: BoundsView, flip: bool)
    requires
        node_size(n) == 0,
    ensures
        diag_text(n, b, flip) == Seq::<char>::empty(),
{
}

pub proof fn lemma_diag_text_internal(
    split_axis: usize,
    split_value: Coord,
    left: Box<KdNode>,
    right: Box<KdNode>,
    b: BoundsView,
    flip: bool,
)
    requires
        split_axis == 0 || split_axis == 1,
        node_size(KdNode::Internal { split_axis, split_value, left, right }) > 0,
    ensures
        diag_text(KdNode::Internal { split_axis, split_value, left, right }, b, flip)
            == split_line_text(
            split_axis as nat,
            split_value@,
            if split_axis == 0 {
                b.min_y
            } else {
                b.min_x
            },
            if split_axis == 0 {
                b.max_y
            } else {
                b.max_x
            },
            flip,
        ) + diag_text(*left, first_child_bounds(b, split_axis as nat, split_value@), true)
            + diag_text(*right, second_child_bounds(b, split_axis as nat, split_value@), false),
{
    let f = diag_chunk_text_fn();
    let axis = split_axis as nat;
    let v = split_value@;
    let c1 = seq![
        (DiagChunk::SplitLine {
            axis,
            value: v,
            lo: if axis == 0 { b.min_y } else { b.min_x },
            hi: if axis == 0 { b.max_y } else { b.max_x },
            flip,
        }),
    ];
    let c2 = diag_chunks(*left, first_child_bounds(b, axis, v), true);
    let c3 = diag_chunks(*right, second_child_bounds(b, axis, v), false);
    lemma_concat_texts_add(c1 + c2, c3, f);
    lemma_concat_texts_add(c1, c2, f);
    lemma_concat_texts_singleton(c1[0], f);
}

pub proof fn lemma_diag_text_leaf(points: Vec<Point>, b: BoundsView, flip: bool)
    requires
        points@.len() > 0,
    ensures
        diag_text(KdNode::Leaf { points }, b, flip) == diag_chunk_text(
            DiagChunk::LeafMarks { points: point_texts(points@) },
        ),
{
    lemma_concat_texts_singleton(
        DiagChunk::LeafMarks { points: point_texts(points@) },
        diag_chunk_text_fn(),
    );
}

/// Law of the narrowing step: the two children's rectangles agree with the
/// parent's on the axis not split, and on the split axis they share exactly
/// the split value as their common boundary — the left child keeps the
/// parent's lower bound, the right child the parent's upper bound. Gluing
/// the two back along that shared boundary therefore reconstructs the
/// parent's rectangle with no gap and no overlap beyond the boundary line.
pub proof fn lemma_child_bounds_partition(b: BoundsView, axis: nat, v: CoordText)
    requires
        axis == 0 || axis == 1,
    ensures
        axis == 0 ==> first_child_bounds(b, axis, v).min_x == b.min_x,
        axis == 0 ==> first_child_bounds(b, axis, v).max_x == v,
        axis == 0 ==> second_child_bounds(b, axis, v).min_x == v,
        axis == 0 ==> second_child_bounds(b, axis, v).max_x == b.max_x,
        axis == 0 ==> first_child_bounds(b, axis, v).min_y == b.min_y,
        axis == 0 ==> first_child_bounds(b, axis, v).max_y == b.max_y,
        axis == 0 ==> second_child_bounds(b, axis, v).min_y == b.min_y,
        axis == 0 ==> second_child_bounds(b, axis, v).max_y == b.max_y,
        axis == 1 ==> first_child_bounds(b, axis, v).min_y == b.min_y,
        axis == 1 ==> first_child_bounds(b, axis, v).max_y == v,
        axis == 1 ==> second_child_bounds(b, axis, v).min_y == v,
        axis == 1 ==> second_child_bounds(b, axis, v).max_y == b.max_y,
        axis == 1 ==> first_child_bounds(b, axis, v).min_x == b.min_x,
        axis == 1 ==> first_child_bounds(b, axis, v).max_x == b.max_x,
        axis == 1 ==> second_child_bounds(b, axis, v).min_x == b.min_x,
        axis == 1 ==> second_child_bounds(b, axis, v).max_x == b.max_x,
{
}

/// Law of the label-orientation flag's propagation: whatever flag an
/// internal node itself is rendered with, it labels its own split line by
/// that flag, then enters its left child with the flag raised and its right
/// child with the flag cleared. The root call starts with the flag cleared,
/// so a node and the left child it hands the raised flag to label opposite
/// sides; a left child's own left child keeps the raised flag.
pub proof fn lemma_label_flag_rule(
    split_axis: usize,
    split_value: Coord,
    left: Box<KdNode>,
    right: Box<KdNode>,
    b: BoundsView,
    flip: bool,
)
    requires
        split_axis == 0 || split_axis == 1,
        node_size(KdNode::Internal { split_axis, split_value, left, right }) > 0,
    ensures
        diag_chunks(KdNode::Internal { split_axis, split_value, left, right }, b, flip) == seq![
            (DiagChunk::SplitLine {
                axis: split_axis as nat,
                value: split_value@,
                lo: if split_axis == 0 { b.min_y } else { b.min_x },
                hi: if split_axis == 0 { b.max_y } else { b.max_x },
                flip,
            }),
        ] + diag_chunks(*left, first_child_bounds(b, split_axis as nat, split_value@), true)
            + diag_chunks(*right, second_child_bounds(b, split_axis as nat, split_value@), false),
{
}

/// A draw command with the label side forgotten: only the geometry that is
/// put on paper.
pub enum DiagShape {
    Line { axis: nat, value: CoordText, lo: CoordText, hi: CoordText },
    Marks { points: Seq<PointText> },
}

pub open spec fn chunk_shape(c: DiagChunk) -> DiagShape {
    match c {
        DiagChunk::SplitLine { axis, value, lo, hi, .. } => DiagShape::Line {
            axis,
            value,
            lo,
            hi,
        },
        DiagChunk::LeafMarks { points } => DiagShape::Marks { points },
    }
}

/// The geometry of a command sequence: every split line's axis, position and
/// extent, and every marker, in order — without the label sides.
pub open spec fn drawn_shapes(cs: Seq<DiagChunk>) -> Seq<DiagShape>
    decreases cs.len(),
{
    if cs.len() == 0 {
        Seq::empty()
    } else {
        seq![chunk_shape(cs[0])] + drawn_shapes(cs.drop_first())
    }
}

proof fn lemma_drawn_shapes_add(a: Seq<DiagChunk>, b: Seq<DiagChunk>)
    ensures
        drawn_shapes(a + b) == drawn_shapes(a) + drawn_shapes(b),
    decreases a.len(),
{
    if a.len() == 0 {
        assert(a + b =~= b);
        assert(drawn_shapes(a) + drawn_shapes(b) =~= drawn_shapes(b));
    } else {
        assert((a + b).drop_first() =~= a.drop_first() + b);
        lemma_drawn_shapes_add(a.drop_first(), b);
        assert(drawn_shapes(a + b) =~= drawn_shapes(a) + drawn_shapes(b));
    }
}

proof fn lemma_drawn_shapes_singleton(c: DiagChunk)
    ensures
        drawn_shapes(seq![c]) == seq![chunk_shape(c)],
{
    assert(seq![c].drop_first() =~= Seq::<DiagChunk>::empty());
    assert(drawn_shapes(Seq::<DiagChunk>::empty()) == Seq::<DiagShape>::empty());
    assert(drawn_shapes(seq![c]) =~= seq![chunk_shape(c)]);
}

/// Law of the label-orientation flag's reach: the flag never changes which
/// split lines or point markers are drawn, only the side a label sits on.
/// Rendering a subtree with either flag value puts the same geometry on
/// paper.
pub proof fn lemma_flag_affects_labels_only(n: KdNode, b: BoundsView, f1: bool, f2: bool)
    ensures
        drawn_shapes(diag_chunks(n, b, f1)) == drawn_shapes(diag_chunks(n, b, f2)),
{
    if node_size(n) != 0 {
        match n {
            KdNode::Internal { split_axis, split_value, left, right } => {
                let axis = split_axis as nat;
                let v = split_value@;
                if axis == 0 || axis == 1 {
                    let lo = if axis == 0 {
                        b.min_y
                    } else {
                        b.min_x
                    };
                    let hi = if axis == 0 {
                        b.max_y
                    } else {
                        b.max_x
                    };
                    let h1 = seq![(DiagChunk::SplitLine { axis, value: v, lo, hi, flip: f1 })];
                    let h2 = seq![(DiagChunk::SplitLine { axis, value: v, lo, hi, flip: f2 })];
                    let c2 = diag_chunks(*left, first_child_bounds(b, axis, v), true);
                    let c3 = diag_chunks(*right, second_child_bounds(b, axis, v), false);
                    lemma_drawn_shapes_add(h1 + c2, c3);
                    lemma_drawn_shapes_add(h1, c2);
                    lemma_drawn_shapes_add(h2 + c2, c3);
                    lemma_drawn_shapes_add(h2, c2);
                    lemma_drawn_shapes_singleton(h1[0]);
                    lemma_drawn_shapes_singleton(h2[0]);
                    assert(chunk_shape(h1[0]) == chunk_shape(h2[0]));
                    assert(drawn_shapes(diag_chunks(n, b, f1)) =~= drawn_shapes(
                        diag_chunks(n, b, f2),
                    ));
                }
            },
            KdNode::Leaf { .. } => {},
        }
    }
}

/// Law: the diagram document is a function of the tree alone, so rendering
/// the same unmodified tree twice gives byte-identical output.
pub proof fn lemma_diagram_render_deterministic(
    t: KdTree,
    first_out: Seq<char>,
    second_out: Seq<char>,
)
    requires
        first_out == tikz_document_text(t),
        second_out == tikz_document_text(t),
    ensures
        first_out == second_out,
{
}

fn write_label_at_start(axis: usize, flip: bool, value: &Coord, out: &mut String)
    requires
        axis == 0 || axis == 1,
    ensures
        final(out)@ == old(out)@ + label_at_start(axis as nat, flip, value@),
{
    if axis == 0 {
        if flip {
            out.append(
                " node[anchor=north, align=flush center] {{\\tiny L} x {\\tiny R} \\\\[-4pt] ",
            );
            out.append(value.as_str());
            out.append("}");
        }
    } else {
        if flip {
            out.append(" node[anchor=east, align=flush right] {{\\tiny R} \\\\[-2pt] ");
            out.append(value.as_str());
            out.append(" y \\\\[-2pt] {\\tiny L}}");
        }
    }
    proof {
        assert(out@ =~= old(out)@ + label_at_start(axis as nat, flip, value@));
    }
}

fn write_label_at_end(axis: usize, flip: bool, value: &Coord, out: &mut String)
    requires
        axis == 0 || axis == 1,
    ensures
        final(out)@ == old(out)@ + label_at_end(axis as nat, flip, value@),
{
    if axis == 0 {
        if !flip {
            out.append(" node[anchor=south, align=flush center] {");
            out.append(value.as_str());
            out.append(" \\\\[-4pt] {\\tiny L} x {\\tiny R}}");
        }
    } else {
        if !flip {
            out.append(" node[anchor=west, align=flush left] {{\\tiny R} \\\\[-2pt] y ");
            out.append(value.as_str());
            out.append(" \\\\[-2pt] {\\tiny L}}");
        }
    }
    proof {
        assert(out@ =~= old(out)@ + label_at_end(axis as nat, flip, value@));
    }
}

fn write_split_line(
    axis: usize,
    value: &Coord,
    lo: &Coord,
    hi: &Coord,
    flip: bool,
    out: &mut String,
)
    requires
        axis == 0 || axis == 1,
    ensures
        final(out)@ == old(out)@ + split_line_text(axis as nat, value@, lo@, hi@, flip),
{
    out.append("\\draw (");
    if axis == 0 {
        out.append(value.as_str());
        out.append(", ");
        out.append(lo.as_str());
    } else {
        out.append(lo.as_str());
        out.append(", ");
        out.append(value.as_str());
    }
    out.append(")");
    write_label_at_start(axis, flip, value, out);
    out.append(" -- (");
    if axis == 0 {
        out.append(value.as_str());
        out.append(", ");
        out.append(hi.as_str());
    } else {
        out.append(hi.as_str());
        out.append(", ");
        out.append(value.as_str());
    }
    out.append(")");
    write_label_at_end(axis, flip, value, out);
    out.append(";\n");
    proof {
        assert(out@ =~= old(out)@ + split_line_text(axis as nat, value@, lo@, hi@, flip));
    }
}

proof fn lemma_marks_text_push(ps: Seq<PointText>, p: PointText)
    ensures
        marks_text(ps.push(p)) == marks_text(ps) + mark_text(p),
{
    assert(ps.push(p).drop_last() =~= ps);
    assert(ps.push(p).last() == p);
}

/// Writes a leaf's draw command: one filled circle with a coordinate label
/// per stored point.
fn write_leaf_marks(points: &Vec<Point>, out: &mut String)
    requires
        forall|k: int| 0 <= k < points@.len() ==> (#[trigger] points@[k])@.len() >= 2,
    ensures
        final(out)@ == old(out)@ + diag_chunk_text(
            DiagChunk::LeafMarks { points: point_texts(points@) },
        ),
{
    let ghost ptexts = point_texts(points@);
    out.append("\\draw[fill=black]");
    let ghost head = out@;
    proof {
        assert(ptexts.take(0) =~= Seq::<PointText>::empty());
        assert(out@ =~= head + marks_text(ptexts.take(0)));
    }
    let mut i: usize = 0;
    while i < points.len()
        invariant
            i <= points@.len(),
            out@ == head + marks_text(ptexts.take(i as int)),
            ptexts == point_texts(points@),
            head == old(out)@ + "\\draw[fill=black]"@,
            forall|k: int| 0 <= k < points@.len() ==> (#[trigger] points@[k])@.len() >= 2,
        decreases points@.len() - i,
    {
        let p = &points[i];
        let ghost markstart = out@;
        out.append("\n    (");
        out.append(p.coords[0].as_str());
        out.append(", ");
        out.append(p.coords[1].as_str());
        out.append(") circle[radius=0.05] node[anchor=north, black!60] {\\footnotesize (");
        out.append(p.coords[0].as_str());
        out.append(", ");
        out.append(p.coords[1].as_str());
        out.append(")}");
        proof {
            assert(p@[0] == p.coords@[0]@);
            assert(p@[1] == p.coords@[1]@);
            assert(out@ =~= markstart + mark_text(p@));
            assert(ptexts.take((i + 1) as int) =~= ptexts.take(i as int).push(p@));
            lemma_marks_text_push(ptexts.take(i as int), p@);
            assert(out@ =~= head + marks_text(ptexts.take((i + 1) as int)));
        }
        i = i + 1;
    }
    proof {
        assert(ptexts.take(points@.len() as int) =~= ptexts);
    }
    out.append(";\n");
    proof {
        assert(out@ =~= old(out)@ + diag_chunk_text(DiagChunk::LeafMarks { points: ptexts }));
    }
}

/// Writes the draw commands of one subtree inside the given rectangle,
/// exactly as `diag_text` states them.
#[verifier::rlimit(30)]
pub fn write_diag_node(n: &KdNode, bounds: &Bounds, flip: bool, out: &mut String)
    requires
        axes_below(*n, 2),
        point_widths(*n, 2),
    ensures
        final(out)@ == old(out)@ + diag_text(*n, bounds@, flip),
    decreases node_height(*n),
{
    let ghost base = out@;
    if subtree_is_empty(n) {
        proof {
            lemma_diag_text_empty(*n, bounds@, flip);
            assert(out@ =~= base + diag_text(*n, bounds@, flip));
        }
        return ;
    }
    match n {
        KdNode::Internal { split_axis, split_value, left, right } => {
            let axis = *split_axis;
            if axis == 0 {
                write_split_line(axis, split_value, &bounds.min_y, &bounds.max_y, flip, out);
                let left_bounds = Bounds {
                    min_x: bounds.min_x.clone(),
                    max_x: split_value.clone(),
                    min_y: bounds.min_y.clone(),
                    max_y: bounds.max_y.clone(),
                };
                let right_bounds = Bounds {
                    min_x: split_value.clone(),
                    max_x: bounds.max_x.clone(),
                    min_y: bounds.min_y.clone(),
                    max_y: bounds.max_y.clone(),
                };
                proof {
                    assert(left_bounds@ == first_child_bounds(bounds@, 0, split_value@));
                    assert(right_bounds@ == second_child_bounds(bounds@, 0, split_value@));
                }
                write_diag_node(left, &left_bounds, true, out);
                write_diag_node(right, &right_bounds, false, out);
                proof {
                    lemma_diag_text_internal(axis, *split_value, *left, *right, bounds@, flip);
                    assert(out@ =~= base + diag_text(*n, bounds@, flip));
                }
            } else {
                let left_bounds = Bounds {
                    min_x: bounds.min_x.clone(),
                    max_x: bounds.max_x.clone(),
                    min_y: bounds.min_y.clone(),
                    max_y: split_value.clone(),
                };
                let right_bounds = Bounds {
                    min_x: bounds.min_x.clone(),
                    max_x: bounds.max_x.clone(),
                    min_y: split_value.clone(),
                    max_y: bounds.max_y.clone(),
                };
                write_split_line(axis, split_value, &bounds.min_x, &bounds.max_x, flip, out);
                proof {
                    assert(left_bounds@ == first_child_bounds(bounds@, 1, split_value@));
                    assert(right_bounds@ == second_child_bounds(bounds@, 1, split_value@));
                }
                write_diag_node(left, &left_bounds, true, out);
                write_diag_node(right, &right_bounds, false, out);
                proof {
                    lemma_diag_text_internal(axis, *split_value, *left, *right, bounds@, flip);
                    assert(out@ =~= base + diag_text(*n, bounds@, flip));
                }
            }
        },
        KdNode::Leaf { points } => {
            write_leaf_marks(points, out);
            proof {
                lemma_diag_text_leaf(*points, bounds@, flip);
                assert(out@ =~= base + diag_text(*n, bounds@, flip));
            }
        },
    }
}

/// The fixed document opening: class, packages, picture environment, and
/// the two axis arrows over the tree's global bounds.
pub open spec fn preamble_text(
    min_x: CoordText,
    max_x: CoordText,
    min_y: CoordText,
    max_y: CoordText,
) -> Seq<char> {
    "\\documentclass[border=2cm]{standalone}\n\\usepackage{mathtools}\n\\usepackage{tikz}\n\\usetikzlibrary{arrows.meta}\n\n\\begin{document}\n\\begin{tikzpicture}\n\n\\draw[->, black!40] ("@
        + min_x + ", 0) -- ("@ + max_x + ", 0);\n\\draw[->, black!40] (0, "@ + min_y
        + ") -- (0, "@ + max_y + ");\n\n"@
}

/// The fixed document closing.
pub open spec fn postamble_text() -> Seq<char> {
    "\n\\end{tikzpicture}\n\\end{document}\n"@
}

/// The whole TikZ document of a 2-dimensional tree: preamble with the global
/// bounds' axis arrows, the root's draw commands starting from the global
/// rectangle with the label flag cleared, and the postamble.
pub open spec fn tikz_document_text(t: KdTree) -> Seq<char> {
    preamble_text(t.min_bounds@[0], t.max_bounds@[0], t.min_bounds@[1], t.max_bounds@[1])
        + diag_text(
        t.root,
        BoundsView {
            min_x: t.min_bounds@[0],
            max_x: t.max_bounds@[0],
            min_y: t.min_bounds@[1],
            max_y: t.max_bounds@[1],
        },
        false,
    ) + postamble_text()
}

fn write_preamble(min_x: &Coord, max_x: &Coord, min_y: &Coord, max_y: &Coord, out: &mut String)
    ensures
        final(out)@ == old(out)@ + preamble_text(min_x@, max_x@, min_y@, max_y@),
{
    out.append(
        "\\documentclass[border=2cm]{standalone}\n\\usepackage{mathtools}\n\\usepackage{tikz}\n\\usetikzlibrary{arrows.meta}\n\n\\begin{document}\n\\begin{tikzpicture}\n\n\\draw[->, black!40] (",
    );
    out.append(min_x.as_str());
    out.append(", 0) -- (");
    out.append(max_x.as_str());
    out.append(", 0);\n\\draw[->, black!40] (0, ");
    out.append(min_y.as_str());
    out.append(") -- (0, ");
    out.append(max_y.as_str());
    out.append(");\n\n");
    proof {
        assert(out@ =~= old(out)@ + preamble_text(min_x@, max_x@, min_y@, max_y@));
    }
}

/// The rendered TikZ document of a 2-dimensional tree.
pub struct KdTreeDisplayTikz {
    document: String,
}

impl View for KdTreeDisplayTikz {
    type V = Seq<char>;

    closed spec fn view(&self) -> Seq<char> {
        self.document@
    }
}

impl KdTreeDisplayTikz {
    /// The document's text.
    pub fn as_text(&self) -> (s: &str)
        ensures
            s@ == self@,
    {
        self.document.as_str()
    }

    /// The document's text, owned.
    pub fn into_text(self) -> (s: String)
        ensures
            s@ == self@,
    {
        self.document
    }
}

impl KdTree {
    /// The TikZ document drawing this tree's spatial subdivision: the global
    /// bounds' axes, one labelled split line per internal node, one circle
    /// marker per stored point. Only a 2-dimensional tree can be drawn; any
    /// other dimensionality is answered with the error and no output.
    pub fn display_tikz(&self) -> (r: Result<KdTreeDisplayTikz, RenderError>)
        requires
            self.wf(),
        ensures
            r is Ok <==> self.dimensions == 2,
            r matches Ok(doc) ==> doc@ == tikz_document_text(*self),
            r matches Err(e) ==> e == RenderError::UnsupportedDimensionality,
    {
        if self.dimensions != 2 {
            return Err(RenderError::UnsupportedDimensionality);
        }
        let mut out = String::new();
        let min_x = &self.min_bounds.coords[0];
        let max_x = &self.max_bounds.coords[0];
        let min_y = &self.min_bounds.coords[1];
        let max_y = &self.max_bounds.coords[1];
        write_preamble(min_x, max_x, min_y, max_y, &mut out);
        let bounds = Bounds {
            min_x: min_x.clone(),
            max_x: max_x.clone(),
            min_y: min_y.clone(),
            max_y: max_y.clone(),
        };
        write_diag_node(&self.root, &bounds, false, &mut out);
        out.append("\n\\end{tikzpicture}\n\\end{document}\n");
        proof {
            assert(min_x@ == self.min_bounds@[0]);
            assert(max_x@ == self.max_bounds@[0]);
            assert(min_y@ == self.min_bounds@[1]);
            assert(max_y@ == self.max_bounds@[1]);
            assert(out@ =~= tikz_document_text(*self));
        }
        Ok(KdTreeDisplayTikz { document: out })
    }
}

} // verus!
