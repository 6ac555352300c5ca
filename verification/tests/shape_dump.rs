use kdtree_render::coord::Coord;
use kdtree_render::labels::dimension_label;
use kdtree_render::tree::{KdNode, KdTree, Point};

fn c(s: &str) -> Coord {
    Coord::new(s.to_string())
}

fn pt(coords: &[&str]) -> Point {
    Point::new(coords.iter().map(|s| c(s)).collect())
}

fn leaf(points: Vec<Point>) -> KdNode {
    KdNode::Leaf { points }
}

fn internal(axis: usize, value: &str, left: KdNode, right: KdNode) -> KdNode {
    KdNode::Internal {
        split_axis: axis,
        split_value: c(value),
        left: Box::new(left),
        right: Box::new(right),
    }
}

fn tree2d(min: [&str; 2], max: [&str; 2], root: KdNode) -> KdTree {
    KdTree {
        dimensions: 2,
        min_bounds: pt(&min),
        max_bounds: pt(&max),
        root,
    }
}

#[test]
fn empty_tree_dumps_bare_marker() {
    let t = tree2d(["-1", "-1"], ["1", "1"], leaf(vec![]));
    assert_eq!(t.render_shape(), "KdTree {}");
}

#[test]
fn single_leaf_dump_signs_every_coordinate() {
    let t = tree2d(
        ["-10", "-10"],
        ["10", "10"],
        leaf(vec![pt(&["1", "2"]), pt(&["-3.5", "4.25"])]),
    );
    let expected = "KdTree {\n    points: [\n        (+1,\t+2)\n        (-3.5,\t+4.25)\n    ]\n}";
    assert_eq!(t.render_shape(), expected);
}

#[test]
fn nested_dump_indents_by_depth() {
    let root = internal(
        1,
        "2.5",
        leaf(vec![pt(&["1", "2"])]),
        leaf(vec![pt(&["3", "4"]), pt(&["5", "6"])]),
    );
    let t = tree2d(["-10", "-10"], ["10", "10"], root);
    let expected = "KdTree {\n    split_value: 2.5 on y\n    left: KdTree {\n        points: [\n            (+1,\t+2)\n        ]\n    }\n    right: KdTree {\n        points: [\n            (+3,\t+4)\n            (+5,\t+6)\n        ]\n    }\n}";
    assert_eq!(t.render_shape(), expected);
}

#[test]
fn empty_subtree_dumps_inline_marker() {
    let root = internal(0, "0", leaf(vec![]), leaf(vec![pt(&["1", "1"])]));
    let t = tree2d(["-10", "-10"], ["10", "10"], root);
    let expected = "KdTree {\n    split_value: 0 on x\n    left: KdTree {}    right: KdTree {\n        points: [\n            (+1,\t+1)\n        ]\n    }\n}";
    assert_eq!(t.render_shape(), expected);
}

#[test]
fn dump_counts_match_tree_shape() {
    let root = internal(
        0,
        "0",
        leaf(vec![pt(&["-1", "1"])]),
        leaf(vec![pt(&["1", "1"]), pt(&["2", "2"])]),
    );
    let t = tree2d(["-10", "-10"], ["10", "10"], root);
    let dump = t.render_shape();
    assert_eq!(dump.matches("points:").count(), 2);
    assert_eq!(dump.matches("split_value:").count(), 1);
    assert_eq!(dump.matches(")\n").count(), 3);
}

#[test]
fn shape_dump_is_idempotent() {
    let root = internal(
        0,
        "0.5",
        leaf(vec![pt(&["-1", "1"])]),
        leaf(vec![pt(&["1", "1"])]),
    );
    let t = tree2d(["-10", "-10"], ["10", "10"], root);
    assert_eq!(t.render_shape(), t.render_shape());
}

#[test]
fn axis_labels_name_the_first_four_axes() {
    assert_eq!(dimension_label(0), "x");
    assert_eq!(dimension_label(1), "y");
    assert_eq!(dimension_label(2), "z");
    assert_eq!(dimension_label(3), "w");
}

#[test]
fn axis_labels_number_higher_axes() {
    assert_eq!(dimension_label(4), "x4");
    assert_eq!(dimension_label(12), "x12");
    assert_eq!(dimension_label(205), "x205");
}

#[test]
fn higher_dimensional_dump_uses_numbered_axes() {
    let root = internal(
        4,
        "7",
        leaf(vec![pt(&["1", "2", "3", "4", "5"])]),
        leaf(vec![pt(&["6", "7", "8", "9", "10"])]),
    );
    let t = KdTree {
        dimensions: 5,
        min_bounds: pt(&["0", "0", "0", "0", "0"]),
        max_bounds: pt(&["9", "9", "9", "9", "9"]),
        root,
    };
    let dump = t.render_shape();
    assert!(dump.contains("split_value: 7 on x4\n"));
}

#[test]
fn points_compare_structurally() {
    assert!(pt(&["1", "2"]) == pt(&["1", "2"]));
    assert!(pt(&["1", "2"]) != pt(&["1", "3"]));
    assert!(pt(&["1", "2"]) != pt(&["1"]));
    assert!(c("-3.5") == c("-3.5"));
    assert!(c("-3.5") != c("3.5"));
}
