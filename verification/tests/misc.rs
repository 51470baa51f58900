use creative_coding_project::dsp::stereo_wrapper::StereoWrapper;
use creative_coding_project::generative::l_system::LSysItem;
use creative_coding_project::generative::smooth_life::{emod, wrap};
use creative_coding_project::generative::vectors::{PointSelection, PointsFrame, PointsInput};
use creative_coding_project::gui::label::Label;

#[test]
fn stereo_wrapper_pairs() {
    let w = StereoWrapper::from_pair(1u8, 2u8);
    assert_eq!(w.unwrap(), (1, 2));
    let s = StereoWrapper::from_single(String::from("fx"));
    assert_eq!(s.l, "fx");
    assert_eq!(s.r, "fx");
    let mut w = StereoWrapper::from_pair(10, 20);
    *w.channel_mut(1).unwrap() += 1;
    assert_eq!((w.l, w.r), (10, 21));
    assert!(w.channel_mut(2).is_none());
}

#[test]
fn l_system_item() {
    let item = LSysItem::new("F", "F+F-F");
    assert_eq!(item.symbol(), "F");
    assert_eq!(item.definition(), "F+F-F");
}

#[test]
fn wrapping_indices() {
    assert_eq!(emod(7, 5), 2);
    assert_eq!(emod(0, 3), 0);
    assert_eq!(wrap(12, 4), 0);
    assert_eq!(wrap(13, 4), 1);
}

#[test]
fn label_text() {
    let l = Label::new();
    assert_eq!(l.text(), "Label");
    let mut l = l.with_text("");
    assert_eq!(l.text(), "Label");
    l.set_text("SPECTRAL FILTER");
    assert_eq!(l.text(), "SPECTRAL FILTER");
    l.set_text("");
    assert_eq!(l.text(), "SPECTRAL FILTER");
}

fn pin(clicked: bool, in_rect: bool, on: Vec<bool>) -> PointsInput {
    PointsInput { is_left_clicked: clicked, mouse_in_rect: in_rect, mouse_on_points: on }
}

#[test]
fn point_drag() {
    let mut s = PointSelection::new(4);
    s.set_num_active_points(3);
    assert_eq!(s.num_active_points, 3);
    s.set_num_active_points(10);
    assert_eq!(s.num_active_points, 4);
    s.set_num_active_points(3);
    let f = s.update(&pin(true, true, vec![false, true, true]));
    assert_eq!(f, PointsFrame { moves: true, dragged: Some(1) });
    // the grab is kept while the button is held
    let f = s.update(&pin(true, true, vec![false, false, true]));
    assert_eq!(f.dragged, Some(1));
    let f = s.update(&pin(false, true, vec![false, false, true]));
    assert_eq!(f.dragged, None);
    // a click that starts outside the field drags nothing
    let f = s.update(&pin(true, false, vec![false, false, false]));
    assert_eq!(f.dragged, None);
    assert!(!s.can_mouse_interact);
    let f = s.update(&pin(true, true, vec![true, false, false]));
    assert_eq!(f.dragged, None);
}

#[test]
fn point_override_freezes_one_frame() {
    let mut s = PointSelection::new(2);
    assert_eq!(s.override_points(), 2);
    assert_eq!(s.update(&pin(false, true, vec![false, false])), PointsFrame { moves: false, dragged: None });
    assert!(s.update(&pin(false, true, vec![false, false])).moves);
}

use creative_coding_project::generative::contours::{band_index, pixel_source, pixels_per_thread, rows_per_thread};

#[test]
fn contour_bands() {
    // a 256 x 256 image split over 4 threads: 64 rows, 16384 pixels each
    assert_eq!(rows_per_thread(256, 4), 64);
    assert_eq!(pixels_per_thread(256, 256, 4), 16384);
    assert_eq!(rows_per_thread(10, 4), 2);
    // thread 2 writes column 5 of its row 3 here...
    let written = band_index(5, 3, 256);
    assert_eq!(written, 3 * 256 + 5);
    // ...and the image pixel at row 2 * 64 + 3, column 5 is read from there
    let pixel = (2 * 64 + 3) * 256 + 5;
    assert_eq!(pixel_source(pixel, 64 * 256), (2, written));
}

#[test]
fn point_selection_builder() {
    let s = PointSelection::new(8).with_num_active_points(3);
    assert_eq!(s.num_active_points, 3);
    assert_eq!(PointSelection::new(2).with_num_active_points(5).num_active_points, 2);
}
