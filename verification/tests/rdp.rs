use creative_coding_project::gui::rdp::Decimation;

fn distance_to_line(p1: [f64; 2], p2: [f64; 2], p: [f64; 2]) -> Option<f64> {
    let [x1, y1] = p1;
    let [x2, y2] = p2;
    let a = y2 - y1;
    let b = x2 - x1;
    let c = x2 * y1 - y2 * x1;
    let length = (y1 - y2).hypot(x1 - x2);
    if length == 0.0 {
        None
    } else {
        Some((a * p[0] - b * p[1] + c).abs() / length)
    }
}

fn decimate(points: &[[f64; 2]], epsilon: f64) -> Vec<usize> {
    let mut d = Decimation::new(points.len());
    while let Some((s, e)) = d.current() {
        let mut max_distance = 0.0f64;
        let mut max_index = 0;
        for (index, point) in points[s + 1..e].iter().enumerate() {
            let dist = distance_to_line(points[s], points[e], *point).unwrap_or_else(|| {
                (point[0] - points[s][0]).hypot(point[1] - points[s][1])
            });
            if dist > max_distance {
                max_distance = dist;
                max_index = index + 1;
            }
        }
        if max_distance > epsilon {
            d.split_at(s + max_index);
        } else {
            d.keep_end();
        }
    }
    d.into_indices()
}

#[test]
fn rdp_short_paths_are_kept_whole() {
    assert_eq!(decimate(&[], 0.1), Vec::<usize>::new());
    assert_eq!(decimate(&[[0.0, 0.0]], 0.1), vec![0]);
    assert_eq!(decimate(&[[0.0, 0.0], [1.0, 5.0]], 0.1), vec![0, 1]);
}

#[test]
fn rdp_collinear_points_are_dropped() {
    let pts: Vec<[f64; 2]> = (0..10).map(|i| [i as f64, 2.0 * i as f64]).collect();
    assert_eq!(decimate(&pts, 0.01), vec![0, 9]);
}

#[test]
fn rdp_keeps_corner() {
    let pts = [[0.0, 0.0], [1.0, 0.0], [2.0, 0.0], [2.0, 1.0], [2.0, 2.0]];
    assert_eq!(decimate(&pts, 0.1), vec![0, 2, 4]);
}

#[test]
fn rdp_zigzag_kept_at_small_epsilon() {
    let pts = [[0.0, 0.0], [1.0, 1.0], [2.0, 0.0], [3.0, 1.0], [4.0, 0.0]];
    assert_eq!(decimate(&pts, 0.1), vec![0, 1, 2, 3, 4]);
    assert_eq!(decimate(&pts, 5.0), vec![0, 4]);
}

#[test]
fn rdp_manual_steps() {
    let mut d = Decimation::new(6);
    assert_eq!(d.current(), Some((0, 5)));
    d.split_at(3);
    assert_eq!(d.current(), Some((0, 3)));
    d.keep_end();
    assert_eq!(d.indices(), &vec![0, 3]);
    assert_eq!(d.current(), Some((3, 5)));
    d.keep_end();
    assert!(d.is_done());
    assert_eq!(d.into_indices(), vec![0, 3, 5]);
}
