use kdtree_render::coord::Coord;
use kdtree_render::diagram::RenderError;
use kdtree_render::tree::{KdNode, KdTree, Point};

fn c(s: &str) -> Coord {
    Coord::new(s.to_string())
}

fn pt(coords: &[&str]) -> Point {
    Point::new(coords.iter().map(|s| c(s)).collect())
}

fn leaf(points: Vec<Point>) -> KdNode {
    KdNode::Leaf { points }
}

fn internal(axis: usize, value: &str, left: KdNode, right: KdNode) -> KdNode {
    KdNode::Internal {
        split_axis: axis,
        split_value: c(value),
        left: Box::new(left),
        right: Box::new(right),
    }
}

fn tree2d(min: [&str; 2], max: [&str; 2], root: KdNode) -> KdTree {
    KdTree {
        dimensions: 2,
        min_bounds: pt(&min),
        max_bounds: pt(&max),
        root,
    }
}

fn preamble(min_x: &str, max_x: &str, min_y: &str, max_y: &str) -> String {
    format!(
        "\\documentclass[border=2cm]{{standalone}}\n\\usepackage{{mathtools}}\n\\usepackage{{tikz}}\n\\usetikzlibrary{{arrows.meta}}\n\n\\begin{{document}}\n\\begin{{tikzpicture}}\n\n\\draw[->, black!40] ({min_x}, 0) -- ({max_x}, 0);\n\\draw[->, black!40] (0, {min_y}) -- (0, {max_y});\n\n"
    )
}

const POSTAMBLE: &str = "\n\\end{tikzpicture}\n\\end{document}\n";

#[test]
fn empty_tree_draws_only_axes() {
    let t = tree2d(["-1", "-2"], ["3", "4"], leaf(vec![]));
    let doc = t.display_tikz().unwrap();
    assert_eq!(doc.as_text(), format!("{}{}", preamble("-1", "3", "-2", "4"), POSTAMBLE));
}

#[test]
fn single_leaf_draws_one_marker_per_point() {
    let t = tree2d(
        ["-10", "-10"],
        ["10", "10"],
        leaf(vec![pt(&["1", "2"]), pt(&["-3.5", "4.25"])]),
    );
    let doc = t.display_tikz().unwrap();
    let payload = "\\draw[fill=black]\n    (1, 2) circle[radius=0.05] node[anchor=north, black!60] {\\footnotesize (1, 2)}\n    (-3.5, 4.25) circle[radius=0.05] node[anchor=north, black!60] {\\footnotesize (-3.5, 4.25)};\n";
    let expected = format!("{}{}{}", preamble("-10", "10", "-10", "10"), payload, POSTAMBLE);
    assert_eq!(doc.as_text(), expected);
    assert_eq!(doc.as_text().matches("circle[radius=0.05]").count(), 2);
    assert_eq!(doc.as_text().matches("\\draw (").count(), 0);
}

#[test]
fn vertical_split_spans_full_height_and_narrows_x() {
    let root = internal(
        0,
        "0",
        internal(
            1,
            "3",
            leaf(vec![pt(&["-5", "1"])]),
            leaf(vec![pt(&["-5", "4"])]),
        ),
        internal(
            1,
            "-2",
            leaf(vec![pt(&["5", "-4"])]),
            leaf(vec![pt(&["5", "0"])]),
        ),
    );
    let t = tree2d(["-10", "-5"], ["10", "5"], root);
    let doc = t.display_tikz().unwrap();
    let text = doc.as_text();
    // the root's vertical line runs at x = 0 over the full y range
    assert!(text.contains("\\draw (0, -5) -- (0, 5) node[anchor=south"));
    // the left child's horizontal line spans the narrowed x range [-10, 0]
    assert!(text.contains("\\draw (-10, 3)"));
    assert!(text.contains(" -- (0, 3);\n"));
    // the right child's horizontal line spans the narrowed x range [0, 10]
    assert!(text.contains("\\draw (0, -2)"));
    assert!(text.contains(" -- (10, -2) node[anchor=west"));
}

#[test]
fn stacked_same_axis_labels_sit_on_opposite_sides() {
    let root = internal(
        0,
        "0",
        internal(
            0,
            "-5",
            leaf(vec![pt(&["-8", "0"])]),
            leaf(vec![pt(&["-2", "0"])]),
        ),
        leaf(vec![pt(&["5", "0"])]),
    );
    let t = tree2d(["-10", "-10"], ["10", "10"], root);
    let doc = t.display_tikz().unwrap();
    let text = doc.as_text();
    // the root is labelled above its line, the left child below its own
    assert_eq!(text.matches("node[anchor=south, align=flush center]").count(), 1);
    assert_eq!(text.matches("node[anchor=north, align=flush center]").count(), 1);
    // both split lines are drawn wherever their labels sit
    assert!(text.contains("\\draw (0, -10) -- (0, 10)"));
    assert!(text.contains("\\draw (-5, -10) node[anchor=north"));
    assert!(text.contains(" -- (-5, 10);\n"));
}

#[test]
fn horizontal_split_label_sides_follow_the_flag() {
    let root = internal(
        1,
        "1",
        internal(
            1,
            "-3",
            leaf(vec![pt(&["0", "-4"])]),
            leaf(vec![pt(&["0", "0"])]),
        ),
        leaf(vec![pt(&["0", "3"])]),
    );
    let t = tree2d(["-10", "-5"], ["10", "5"], root);
    let doc = t.display_tikz().unwrap();
    let text = doc.as_text();
    // the root's label sits right of its line, the lower child's left of its own
    assert!(text.contains(
        "\\draw (-10, 1) -- (10, 1) node[anchor=west, align=flush left] {{\\tiny R} \\\\[-2pt] y 1 \\\\[-2pt] {\\tiny L}};\n"
    ));
    assert!(text.contains(
        "\\draw (-10, -3) node[anchor=east, align=flush right] {{\\tiny R} \\\\[-2pt] -3 y \\\\[-2pt] {\\tiny L}} -- (10, -3);\n"
    ));
}

#[test]
fn wrong_dimensionality_is_refused_without_output() {
    let root = leaf(vec![pt(&["1", "2", "3"])]);
    let t = KdTree {
        dimensions: 3,
        min_bounds: pt(&["0", "0", "0"]),
        max_bounds: pt(&["9", "9", "9"]),
        root,
    };
    assert!(matches!(t.display_tikz(), Err(RenderError::UnsupportedDimensionality)));
}

#[test]
fn one_dimensional_tree_is_refused_too() {
    let t = KdTree {
        dimensions: 1,
        min_bounds: pt(&["0"]),
        max_bounds: pt(&["9"]),
        root: leaf(vec![pt(&["4"])]),
    };
    assert!(matches!(t.display_tikz(), Err(RenderError::UnsupportedDimensionality)));
}

#[test]
fn one_split_renders_the_exact_document() {
    let root = internal(
        0,
        "2",
        leaf(vec![pt(&["1", "1"])]),
        leaf(vec![pt(&["3", "3"])]),
    );
    let t = tree2d(["0", "0"], ["4", "4"], root);
    let doc = t.display_tikz().unwrap();
    let payload = "\\draw (2, 0) -- (2, 4) node[anchor=south, align=flush center] {2 \\\\[-4pt] {\\tiny L} x {\\tiny R}};\n\\draw[fill=black]\n    (1, 1) circle[radius=0.05] node[anchor=north, black!60] {\\footnotesize (1, 1)};\n\\draw[fill=black]\n    (3, 3) circle[radius=0.05] node[anchor=north, black!60] {\\footnotesize (3, 3)};\n";
    let expected = format!("{}{}{}", preamble("0", "4", "0", "4"), payload, POSTAMBLE);
    assert_eq!(doc.as_text(), expected);
}

#[test]
fn diagram_is_idempotent() {
    let root = internal(
        0,
        "2",
        leaf(vec![pt(&["1", "1"])]),
        leaf(vec![pt(&["3", "3"])]),
    );
    let t = tree2d(["0", "0"], ["4", "4"], root);
    let first = t.display_tikz().unwrap();
    let second = t.display_tikz().unwrap();
    assert_eq!(first.as_text(), second.as_text());
    assert_eq!(first.into_text(), second.into_text());
}
