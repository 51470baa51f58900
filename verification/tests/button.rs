use creative_coding_project::gui::button::Button;
use creative_coding_project::gui::components::{str_to_option, UIComponentState};

#[test]
fn toggle_press_release_press() {
    let mut b = Button::new();
    assert!(!b.enabled());
    assert_eq!(b.update(true, false), None);
    assert_eq!(b.update(true, true), Some(true));
    assert!(b.enabled());
    assert_eq!(b.state(), UIComponentState::Clicked);
    // holding the button does not toggle again
    assert_eq!(b.update(true, true), None);
    assert!(b.enabled());
    assert_eq!(b.update(true, false), None);
    assert_eq!(b.state(), UIComponentState::Hovered);
    assert_eq!(b.update(true, true), Some(false));
    assert!(!b.enabled());
}

#[test]
fn press_dragged_onto_button_is_ignored() {
    let mut b = Button::new();
    assert_eq!(b.update(false, true), None);
    assert_eq!(b.update(true, true), None);
    assert!(!b.enabled());
    assert_eq!(b.update(true, false), None);
    assert_eq!(b.update(true, true), Some(true));
}

#[test]
fn trigger_reports_true() {
    let mut b = Button::new().toggleable(false).with_label("Regenerate");
    assert_eq!(b.update(true, false), None);
    assert_eq!(b.state(), UIComponentState::Hovered);
    assert_eq!(b.update(true, true), Some(true));
    assert_eq!(b.update(true, true), None);
    assert_eq!(b.update(true, false), None);
    assert_eq!(b.update(true, true), Some(true));
    assert_eq!(b.text(), "Regenerate");
}

#[test]
fn button_texts() {
    let b = Button::new();
    assert_eq!(b.text(), "Off");
    let b = b.with_state(true);
    assert_eq!(b.text(), "On");
    let b = b.with_enabled_text("Post FX").with_disabled_text("Pre FX");
    assert_eq!(b.text(), "Post FX");
    assert_eq!(b.with_state(false).text(), "Pre FX");
    let t = Button::new().toggleable(false);
    assert_eq!(t.text(), "Button");
    assert_eq!(t.label(), None);
    assert_eq!(Button::new().with_label("").label(), None);
    assert_eq!(Button::new().with_label("Sync").label(), Some("Sync"));
}

#[test]
fn str_to_option_cases() {
    assert_eq!(str_to_option(""), None);
    assert_eq!(str_to_option("Type"), Some(String::from("Type")));
}
