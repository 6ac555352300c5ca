//! The nested plain-text dump of a tree's shape and contents.
//!
//! The dump is specified as a sequence of emitted blocks (`ShapeChunk`), each
//! with an exact text; the rendered output is the concatenation of those
//! texts. An internal node opens a block with its split metadata, renders its
//! two children one nesting level deeper, and closes the block; a leaf prints
//! its points one per line, each coordinate with an explicit sign; a subtree
//! holding no points at all prints as the bare empty marker.

use vstd::prelude::*;
use vstd::string::StringExecFns;
use crate::coord::{Coord, signed_text, write_signed};
use crate::emit::{
    concat_texts, lemma_concat_texts_add, lemma_concat_texts_singleton, lemma_sum_over_add,
    lemma_sum_over_singleton, push_indent, spaces, sum_over,
};
use crate::labels::{axis_label_text, dimension_label};
use crate::tree::{
    KdNode, KdTree, Point, PointText, internal_count, leaf_count, leaves_nonempty,
    lemma_leaves_nonempty_size, node_height, node_size, point_texts, points_wf, subtree_is_empty,
};

verus! {

/// One emitted block of the shape dump, at the nesting depth it is printed
/// at.
pub enum ShapeChunk {
    /// `KdTree {}`: a subtree that stores no points.
    EmptyMarker,
    /// The opening of an internal node's block: header, the `split_value:`
    /// line, and the `left:` field mark.
    InternalOpen { level: nat, value: Seq<char>, axis: nat },
    /// The `right:` field mark between an internal node's two children.
    InternalMid { level: nat },
    /// The closing brace of an internal node's block.
    InternalClose { level: nat },
    /// A whole leaf block: header, the `points:` section with one line per
    /// stored point, and the closing brace.
    LeafBlock { level: nat, points: Seq<PointText> },
}

/// A point's coordinates with explicit signs, separated by comma and tab.
pub open spec fn signed_coords_text(p: PointText) -> Seq<char>
    decreases p.len(),
{
    if p.len() == 0 {
        Seq::empty()
    } else if p.len() == 1 {
        signed_text(p[0])
    } else {
        signed_coords_text(p.drop_last()) + ",\t"@ + signed_text(p.last())
    }
}

/// One line of the `points:` section.
pub open spec fn point_line_text(p: PointText, level: nat) -> Seq<char> {
    spaces(4 * level + 8) + "("@ + signed_coords_text(p) + ")\n"@
}

/// The lines of the `points:` section, in storage order.
pub open spec fn point_lines_text(ps: Seq<PointText>, level: nat) -> Seq<char>
    decreases ps.len(),
{
    if ps.len() == 0 {
        Seq::empty()
    } else {
        point_lines_text(ps.drop_last(), level) + point_line_text(ps.last(), level)
    }
}

/// The exact text of one emitted block.
pub open spec fn shape_chunk_text(c: ShapeChunk) -> Seq<char> {
    match c {
        ShapeChunk::EmptyMarker => "KdTree {}"@,
        ShapeChunk::InternalOpen { level, value, axis } => "KdTree {\n"@ + spaces(4 * level + 4)
            + "split_value: "@ + value + " on "@ + axis_label_text(axis) + "\n"@ + spaces(
            4 * level + 4,
        ) + "left: "@,
        ShapeChunk::InternalMid { level } => spaces(4 * level + 4) + "right: "@,
        ShapeChunk::InternalClose { level } => spaces(4 * level) + "}"@ + (if level > 0 {
            "\n"@
        } else {
            Seq::<char>::empty()
        }),
        ShapeChunk::LeafBlock { level, points } => "KdTree {\n"@ + spaces(4 * level + 4)
            + "points: [\n"@ + point_lines_text(points, level) + spaces(4 * level + 4) + "]\n"@
            + spaces(4 * level) + "}"@ + (if level > 0 {
            "\n"@
        } else {
            Seq::<char>::empty()
        }),
    }
}

pub open spec fn shape_chunk_text_fn() -> spec_fn(ShapeChunk) -> Seq<char> {
    |c: ShapeChunk| shape_chunk_text(c)
}

/// The blocks a subtree's dump emits, in order. A subtree of size zero emits
/// only the empty marker, whatever its shape; the trailing newline after a
/// closing brace is emitted exactly at depths below the root.
pub open spec fn shape_chunks(n: KdNode, level: nat) -> Seq<ShapeChunk>
    decreases n,
{
    if node_size(n) == 0 {
        seq![ShapeChunk::EmptyMarker]
    } else {
        match n {
            KdNode::Internal { split_axis, split_value, left, right } => seq![
                ShapeChunk::InternalOpen {
                    level,
                    value: split_value@,
                    axis: split_axis as nat,
                },
            ] + shape_chunks(*left, level + 1) + seq![ShapeChunk::InternalMid { level }]
                + shape_chunks(*right, level + 1) + seq![ShapeChunk::InternalClose { level }],
            KdNode::Leaf { points } => seq![
                ShapeChunk::LeafBlock { level, points: point_texts(points@) },
            ],
        }
    }
}

/// The dump of a subtree rendered at the given depth.
pub open spec fn shape_text(n: KdNode, level: nat) -> Seq<char> {
    concat_texts(shape_chunks(n, level), shape_chunk_text_fn())
}

pub proof fn lemma_shape_text_empty(n: KdNode, level: nat)
    requires
        node_size(n) == 0,
    ensures
        shape_text(n, level) == "KdTree {}"@,
{
    lemma_concat_texts_singleton(ShapeChunk::EmptyMarker, shape_chunk_text_fn());
}

pub proof fn lemma_shape_text_internal(
    split_axis: usize,
    split_value: Coord,
    left: Box<KdNode>,
    right: Box<KdNode>,
    level: nat,
)
    requires
        node_size(KdNode::Internal { split_axis, split_value, left, right }) > 0,
    ensures
        shape_text(KdNode::Internal { split_axis, split_value, left, right }, level)
            == shape_chunk_text(
            ShapeChunk::InternalOpen { level, value: split_value@, axis: split_axis as nat },
        ) + shape_text(*left, level + 1) + shape_chunk_text(ShapeChunk::InternalMid { level })
            + shape_text(*right, level + 1) + shape_chunk_text(
            ShapeChunk::InternalClose { level },
        ),
{
    let f = shape_chunk_text_fn();
    let c1 = seq![
        ShapeChunk::InternalOpen { level, value: split_value@, axis: split_axis as nat },
    ];
    let c2 = shape_chunks(*left, level + 1);
    let c3 = seq![ShapeChunk::InternalMid { level }];
    let c4 = shape_chunks(*right, level + 1);
    let c5 = seq![ShapeChunk::InternalClose { level }];
    lemma_concat_texts_add(c1 + c2 + c3 + c4, c5, f);
    lemma_concat_texts_add(c1 + c2 + c3, c4, f);
    lemma_concat_texts_add(c1 + c2, c3, f);
    lemma_concat_texts_add(c1, c2, f);
    lemma_concat_texts_singleton(c1[0], f);
    lemma_concat_texts_singleton(c3[0], f);
    lemma_concat_texts_singleton(c5[0], f);
}

pub proof fn lemma_shape_text_leaf(points: Vec<Point>, level: nat)
    requires
        points@.len() > 0,
    ensures
        shape_text(KdNode::Leaf { points }, level) == shape_chunk_text(
            ShapeChunk::LeafBlock { level, points: point_texts(points@) },
        ),
{
    lemma_concat_texts_singleton(
        ShapeChunk::LeafBlock { level, points: point_texts(points@) },
        shape_chunk_text_fn(),
    );
}

/// Writes one point's line of the `points:` section.
fn write_point_line(p: &Point, level: usize, out: &mut String)
    requires
        p.wf(),
        level < usize::MAX,
    ensures
        final(out)@ == old(out)@ + point_line_text(p@, level as nat),
{
    let ghost linestart = out@;
    push_indent(level + 1, out);
    push_indent(1, out);
    out.append("(");
    let ghost opened = out@;
    proof {
        assert(opened =~= linestart + spaces(4 * level as nat + 8) + "("@);
        assert(p@.take(0) =~= Seq::<Seq<char>>::empty());
        assert(out@ =~= opened + signed_coords_text(p@.take(0)));
    }
    let mut j: usize = 0;
    while j < p.coords.len()
        invariant
            j <= p.coords@.len(),
            p.wf(),
            out@ == opened + signed_coords_text(p@.take(j as int)),
            opened == linestart + spaces(4 * level as nat + 8) + "("@,
        decreases p.coords@.len() - j,
    {
        if j != 0 {
            out.append(",\t");
        }
        write_signed(&p.coords[j], out);
        proof {
            let done = p@.take((j + 1) as int);
            assert(done.drop_last() =~= p@.take(j as int));
            assert(done.last() == p@[j as int]);
            assert(p@[j as int] == p.coords@[j as int]@);
            if j == 0 {
                assert(signed_coords_text(done) == signed_text(p@[0]));
                assert(out@ =~= opened + signed_coords_text(done));
            } else {
                assert(signed_coords_text(done) == signed_coords_text(p@.take(j as int)) + ",\t"@
                    + signed_text(p@[j as int]));
                assert(out@ =~= opened + signed_coords_text(done));
            }
        }
        j = j + 1;
    }
    proof {
        assert(p@.take(p.coords@.len() as int) =~= p@);
    }
    out.append(")\n");
    proof {
        assert(out@ =~= linestart + point_line_text(p@, level as nat));
    }
}

proof fn lemma_point_lines_text_push(ps: Seq<PointText>, p: PointText, level: nat)
    ensures
        point_lines_text(ps.push(p), level) == point_lines_text(ps, level) + point_line_text(
            p,
            level,
        ),
{
    assert(ps.push(p).drop_last() =~= ps);
    assert(ps.push(p).last() == p);
}

/// Writes a leaf's whole block: header, the `points:` section, and the
/// closing brace.
fn write_leaf_block(points: &Vec<Point>, level: usize, out: &mut String)
    requires
        forall|k: int| 0 <= k < points@.len() ==> (#[trigger] points@[k]).wf(),
        level < usize::MAX,
    ensures
        final(out)@ == old(out)@ + shape_chunk_text(
            ShapeChunk::LeafBlock { level: level as nat, points: point_texts(points@) },
        ),
{
    let ghost base = out@;
    let ghost lv = level as nat;
    let ghost ptexts = point_texts(points@);
    out.append("KdTree {\n");
    push_indent(level + 1, out);
    out.append("points: [\n");
    let ghost head = out@;
    proof {
        assert(head =~= base + "KdTree {\n"@ + spaces(4 * lv + 4) + "points: [\n"@);
        assert(ptexts.take(0) =~= Seq::<PointText>::empty());
        assert(out@ =~= head + point_lines_text(ptexts.take(0), lv));
    }
    let mut i: usize = 0;
    while i < points.len()
        invariant
            i <= points@.len(),
            level < usize::MAX,
            lv == level as nat,
            out@ == head + point_lines_text(ptexts.take(i as int), lv),
            ptexts == point_texts(points@),
            head == base + "KdTree {\n"@ + spaces(4 * lv + 4) + "points: [\n"@,
            forall|k: int| 0 <= k < points@.len() ==> (#[trigger] points@[k]).wf(),
        decreases points@.len() - i,
    {
        write_point_line(&points[i], level, out);
        proof {
            let done = ptexts.take((i + 1) as int);
            assert(done =~= ptexts.take(i as int).push(points@[i as int]@));
            lemma_point_lines_text_push(ptexts.take(i as int), points@[i as int]@, lv);
            assert(out@ =~= head + point_lines_text(done, lv));
        }
        i = i + 1;
    }
    proof {
        assert(ptexts.take(points@.len() as int) =~= ptexts);
    }
    push_indent(level + 1, out);
    out.append("]\n");
    push_indent(level, out);
    out.append("}");
    if level >= 1 {
        out.append("\n");
    }
    proof {
        assert(out@ =~= base + shape_chunk_text(
            ShapeChunk::LeafBlock { level: lv, points: ptexts },
        ));
    }
}

/// Writes the opening of an internal node's block: header, `split_value:`
/// line, `left:` field mark.
fn write_internal_open(split_axis: usize, split_value: &Coord, level: usize, out: &mut String)
    requires
        level < usize::MAX,
    ensures
        final(out)@ == old(out)@ + shape_chunk_text(
            ShapeChunk::InternalOpen {
                level: level as nat,
                value: split_value@,
                axis: split_axis as nat,
            },
        ),
{
    out.append("KdTree {\n");
    push_indent(level + 1, out);
    out.append("split_value: ");
    out.append(split_value.as_str());
    out.append(" on ");
    let axis_text = dimension_label(split_axis);
    out.append(axis_text.as_str());
    out.append("\n");
    push_indent(level + 1, out);
    out.append("left: ");
    proof {
        assert(out@ =~= old(out)@ + shape_chunk_text(
            ShapeChunk::InternalOpen {
                level: level as nat,
                value: split_value@,
                axis: split_axis as nat,
            },
        ));
    }
}

/// Writes the `right:` field mark between an internal node's children.
fn write_internal_mid(level: usize, out: &mut String)
    requires
        level < usize::MAX,
    ensures
        final(out)@ == old(out)@ + shape_chunk_text(
            ShapeChunk::InternalMid { level: level as nat },
        ),
{
    push_indent(level + 1, out);
    out.append("right: ");
    proof {
        assert(out@ =~= old(out)@ + shape_chunk_text(
            ShapeChunk::InternalMid { level: level as nat },
        ));
    }
}

/// Writes the closing brace of an internal node's block, with the trailing
/// newline owed below the root.
fn write_internal_close(level: usize, out: &mut String)
    ensures
        final(out)@ == old(out)@ + shape_chunk_text(
            ShapeChunk::InternalClose { level: level as nat },
        ),
{
    push_indent(level, out);
    out.append("}");
    if level >= 1 {
        out.append("\n");
    }
    proof {
        assert(out@ =~= old(out)@ + shape_chunk_text(
            ShapeChunk::InternalClose { level: level as nat },
        ));
    }
}

/// Writes the dump of one subtree at the given depth, exactly as
/// `shape_text` states it.
pub fn write_shape_node(n: &KdNode, level: usize, out: &mut String)
    requires
        points_wf(*n),
        level + node_height(*n) < usize::MAX,
    ensures
        final(out)@ == old(out)@ + shape_text(*n, level as nat),
    decreases node_height(*n),
{
    let ghost base = out@;
    let ghost lv = level as nat;
    if subtree_is_empty(n) {
        out.append("KdTree {}");
        proof {
            lemma_shape_text_empty(*n, lv);
            assert(out@ =~= base + shape_text(*n, lv));
        }
        return ;
    }
    match n {
        KdNode::Internal { split_axis, split_value, left, right } => {
            write_internal_open(*split_axis, split_value, level, out);
            write_shape_node(left, level + 1, out);
            write_internal_mid(level, out);
            write_shape_node(right, level + 1, out);
            write_internal_close(level, out);
            proof {
                lemma_shape_text_internal(*split_axis, *split_value, *left, *right, lv);
                assert(out@ =~= base + shape_text(*n, lv));
            }
        },
        KdNode::Leaf { points } => {
            write_leaf_block(points, level, out);
            proof {
                lemma_shape_text_leaf(*points, lv);
                assert(out@ =~= base + shape_text(*n, lv));
            }
        },
    }
}

impl KdTree {
    /// The shape dump of the whole tree: one nested block per node, four
    /// spaces of indentation per depth, every point written with explicit
    /// signs. Any dimensionality is accepted.
    pub fn render_shape(&self) -> (out: String)
        requires
            points_wf(self.root),
            node_height(self.root) < usize::MAX,
        ensures
            out@ == shape_text(self.root, 0),
    {
        let mut out = String::new();
        write_shape_node(&self.root, 0, &mut out);
        proof {
            assert(out@ =~= shape_text(self.root, 0));
        }
        out
    }
}

pub open spec fn leaf_section_weight() -> spec_fn(ShapeChunk) -> nat {
    |c: ShapeChunk|
        (match c {
            ShapeChunk::LeafBlock { .. } => 1nat,
            _ => 0nat,
        })
}

pub open spec fn split_line_weight() -> spec_fn(ShapeChunk) -> nat {
    |c: ShapeChunk|
        (match c {
            ShapeChunk::InternalOpen { .. } => 1nat,
            _ => 0nat,
        })
}

pub open spec fn point_line_weight() -> spec_fn(ShapeChunk) -> nat {
    |c: ShapeChunk|
        (match c {
            ShapeChunk::LeafBlock { points, .. } => points.len(),
            _ => 0nat,
        })
}

proof fn lemma_sum_over_internal_chunks(
    c1: Seq<ShapeChunk>,
    c2: Seq<ShapeChunk>,
    c3: Seq<ShapeChunk>,
    c4: Seq<ShapeChunk>,
    c5: Seq<ShapeChunk>,
    weight: spec_fn(ShapeChunk) -> nat,
)
    ensures
        sum_over(c1 + c2 + c3 + c4 + c5, weight) == sum_over(c1, weight) + sum_over(c2, weight)
            + sum_over(c3, weight) + sum_over(c4, weight) + sum_over(c5, weight),
{
    lemma_sum_over_add(c1 + c2 + c3 + c4, c5, weight);
    lemma_sum_over_add(c1 + c2 + c3, c4, weight);
    lemma_sum_over_add(c1 + c2, c3, weight);
    lemma_sum_over_add(c1, c2, weight);
}

/// Law of the shape dump, for trees whose every leaf stores at least one
/// point: the dump carries exactly one `points:` section per leaf, exactly
/// one `split_value:` line per internal node, and as many point lines as the
/// tree stores points. (A subtree without points prints only the empty
/// marker, so such leaves and their ancestors are exempt.)
pub proof fn lemma_shape_dump_counts(n: KdNode, level: nat)
    requires
        leaves_nonempty(n),
    ensures
        sum_over(shape_chunks(n, level), leaf_section_weight()) == leaf_count(n),
        sum_over(shape_chunks(n, level), split_line_weight()) == internal_count(n),
        sum_over(shape_chunks(n, level), point_line_weight()) == node_size(n),
    decreases n,
{
    lemma_leaves_nonempty_size(n);
    match n {
        KdNode::Internal { split_axis, split_value, left, right } => {
            lemma_shape_dump_counts(*left, level + 1);
            lemma_shape_dump_counts(*right, level + 1);
            let c1 = seq![
                ShapeChunk::InternalOpen {
                    level,
                    value: split_value@,
                    axis: split_axis as nat,
                },
            ];
            let c2 = shape_chunks(*left, level + 1);
            let c3 = seq![ShapeChunk::InternalMid { level }];
            let c4 = shape_chunks(*right, level + 1);
            let c5 = seq![ShapeChunk::InternalClose { level }];
            lemma_sum_over_internal_chunks(c1, c2, c3, c4, c5, leaf_section_weight());
            lemma_sum_over_internal_chunks(c1, c2, c3, c4, c5, split_line_weight());
            lemma_sum_over_internal_chunks(c1, c2, c3, c4, c5, point_line_weight());
            lemma_sum_over_singleton(c1[0], leaf_section_weight());
            lemma_sum_over_singleton(c3[0], leaf_section_weight());
            lemma_sum_over_singleton(c5[0], leaf_section_weight());
            lemma_sum_over_singleton(c1[0], split_line_weight());
            lemma_sum_over_singleton(c3[0], split_line_weight());
            lemma_sum_over_singleton(c5[0], split_line_weight());
            lemma_sum_over_singleton(c1[0], point_line_weight());
            lemma_sum_over_singleton(c3[0], point_line_weight());
            lemma_sum_over_singleton(c5[0], point_line_weight());
        },
        KdNode::Leaf { points } => {
            let c = ShapeChunk::LeafBlock { level, points: point_texts(points@) };
            lemma_sum_over_singleton(c, leaf_section_weight());
            lemma_sum_over_singleton(c, split_line_weight());
            lemma_sum_over_singleton(c, point_line_weight());
        },
    }
}

/// Law: the shape dump is a function of the tree alone, so rendering the
/// same unmodified tree twice gives byte-identical output.
pub proof fn lemma_shape_render_deterministic(
    t: KdTree,
    first_out: Seq<char>,
    second_out: Seq<char>,
)
    requires
        first_out == shape_text(t.root, 0),
        second_out == shape_text(t.root, 0),
    ensures
        first_out == second_out,
{
}

} // verus!
