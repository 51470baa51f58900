use creative_coding_project::gui::eq_display::{EQClickState, EQFrame, EQMouseInput, NodeType};

fn mouse(clicked: bool, in_spectrum: bool, low: bool, peak: bool, high: bool) -> EQMouseInput {
    EQMouseInput {
        is_left_clicked: clicked,
        in_spectrum,
        on_low_node: low,
        on_peak_node: peak,
        on_high_node: high,
    }
}

#[test]
fn eq_grab_and_drag_node() {
    let mut s = EQClickState::new();
    let f = s.update(&mouse(true, true, false, true, false));
    assert_eq!(f, EQFrame { dragged: Some(NodeType::Peak), sync_nodes_from_params: false });
    // the peak node stays grabbed even when the mouse leaves it or the spectrum
    let f = s.update(&mouse(true, false, true, false, false));
    assert_eq!(f.dragged, Some(NodeType::Peak));
    let f = s.update(&mouse(false, true, true, false, false));
    assert_eq!(f, EQFrame { dragged: None, sync_nodes_from_params: false });
    assert_eq!(s, EQClickState::new());
}

#[test]
fn eq_node_priority() {
    let mut s = EQClickState::new();
    assert_eq!(s.update(&mouse(true, true, true, true, true)).dragged, Some(NodeType::Low));
    let mut s = EQClickState::new();
    assert_eq!(s.update(&mouse(true, true, false, false, true)).dragged, Some(NodeType::High));
    let mut s = EQClickState::new();
    assert_eq!(s.update(&mouse(true, true, false, false, false)).dragged, None);
    assert!(s.spectrum_is_clicked);
}

#[test]
fn eq_click_outside_syncs_from_params() {
    let mut s = EQClickState::new();
    let f = s.update(&mouse(true, false, false, false, false));
    assert_eq!(f, EQFrame { dragged: None, sync_nodes_from_params: true });
    assert!(s.clicked_outside_of_spectrum);
    // dragging into the spectrum never grabs a node
    let f = s.update(&mouse(true, true, true, false, false));
    assert_eq!(f, EQFrame { dragged: None, sync_nodes_from_params: true });
    assert_eq!(s.clicked_node, None);
}

#[test]
fn eq_update_clicked_node_keeps_held() {
    let mut s = EQClickState::new();
    s.update_clicked_node(&mouse(true, true, false, false, true));
    assert_eq!(s.clicked_node, Some(NodeType::High));
    s.update_clicked_node(&mouse(true, true, true, false, false));
    assert_eq!(s.clicked_node, Some(NodeType::High));
}
