use creative_coding_project::gui::gradient::{color_segment_indices, strip_triangles, Color32, Gradient};

#[test]
fn gradient_constructors() {
    let c = Color32::from_rgba_premultiplied(10, 20, 30, 40);
    let g = Gradient::one_color(c);
    assert_eq!(g.points, vec![c, c]);
    assert_eq!(g.num_points(), 2);
    let d = Color32::from_rgb(1, 2, 3);
    let g = Gradient::endpoints(c, d);
    assert_eq!(g[0], c);
    assert_eq!(g[1], d);
    assert_eq!(g.to_pixel_row(), vec![c, d]);
    assert_eq!(d.a(), 255);
    assert_eq!(c.channel(2), 30);
}

#[test]
fn gradient_segments() {
    // 3 colours over 7 points: 2 points per colour, the last colour repeated
    let v = color_segment_indices(3, 7);
    assert_eq!(v, vec![(0, 1), (0, 1), (1, 2), (1, 2), (2, 2), (2, 2), (2, 2)]);
    assert_eq!(color_segment_indices(2, 0), vec![]);
    assert_eq!(color_segment_indices(1, 3), vec![(0, 0), (0, 0), (0, 0)]);
}

#[test]
fn gradient_strip_mesh() {
    let t = strip_triangles(3);
    assert_eq!(t, vec![(0, 1, 2), (1, 2, 3), (2, 3, 4), (3, 4, 5)]);
    assert_eq!(strip_triangles(2), vec![(0, 1, 2), (1, 2, 3)]);
}
