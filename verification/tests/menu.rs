use creative_coding_project::gui::components::UIComponentState;
use creative_coding_project::gui::menu::{ItemLook, Menu, MenuInput};
use creative_coding_project::menu_enum::Scale;

fn input(in_menu: bool, in_top: bool, items: Vec<bool>, clicked: bool) -> MenuInput {
    MenuInput {
        mouse_in_menu: in_menu,
        mouse_in_top_item: in_top,
        mouse_in_items: items,
        is_left_clicked: clicked,
        is_alt_down: false,
        is_os_mod_down: false,
    }
}

fn on_item(i: usize) -> Vec<bool> {
    (0..5).map(|j| j == i).collect()
}

#[test]
fn menu_opens_and_selects() {
    let mut m = Menu::new(Scale::Major);
    // hover over the top item with the button up: the menu may open
    assert_eq!(m.update(&input(true, true, on_item(0), false)), None);
    assert!(!m.is_open());
    // press on the top item: the menu opens, nothing is selected yet
    assert_eq!(m.update(&input(true, true, on_item(0), true)), None);
    assert!(m.is_open());
    // release over the third item: it is hovered
    assert_eq!(m.update(&input(true, false, on_item(2), false)), None);
    assert_eq!(m.hovered_idx(), Some(2));
    // press on it: it is selected and the menu closes
    assert_eq!(m.update(&input(true, false, on_item(2), true)), Some(Scale::MajPentatonic));
    assert!(!m.is_open());
    assert_eq!(m.output(), Scale::MajPentatonic);
    // still holding the button over the top item: the menu stays closed
    assert_eq!(m.update(&input(true, true, on_item(0), true)), None);
    assert!(!m.is_open());
}

#[test]
fn menu_needs_release_before_opening() {
    let mut m = Menu::new(Scale::Major);
    // the button was pressed elsewhere and dragged onto the top item
    assert_eq!(m.update(&input(false, false, on_item(9), true)), None);
    assert_eq!(m.update(&input(true, true, on_item(0), true)), None);
    assert!(!m.is_open());
}

#[test]
fn menu_click_outside_closes() {
    let mut m = Menu::new(Scale::Major).starts_open();
    assert!(m.is_open());
    assert_eq!(m.update(&input(false, false, on_item(9), true)), None);
    assert!(!m.is_open());
    assert_eq!(m.output(), Scale::Major);
}

#[test]
fn menu_alt_click_resets_to_default() {
    let mut m = Menu::new(Scale::Major).initial_variant(Scale::Chromatic);
    m.update(&input(true, true, on_item(0), false));
    let mut inp = input(true, true, on_item(0), true);
    inp.is_alt_down = true;
    assert_eq!(m.update(&inp), Some(Scale::Major));
    assert_eq!(m.output(), Scale::Major);
    assert!(!m.is_open());
}

#[test]
fn menu_goes_idle_when_not_active() {
    let mut m = Menu::new(Scale::Major);
    assert_eq!(m.update(&input(false, false, on_item(9), false)), None);
    assert_eq!(m.state(), UIComponentState::Idle);
    assert!(!m.should_update(&input(false, false, on_item(9), true)));
    assert!(m.should_update(&input(true, false, on_item(9), true)));
}

#[test]
fn menu_reset_to_default_direct() {
    let mut m = Menu::new(Scale::Minor).initial_variant(Scale::Chromatic);
    assert_eq!(m.reset_to_default(), Scale::Minor);
    assert_eq!(m.output(), Scale::Minor);
}

#[test]
fn menu_label() {
    let m = Menu::new(Scale::Major).with_label("Scale");
    assert_eq!(m.label(), Some("Scale"));
    assert_eq!(Menu::new(Scale::Major).with_label("").label(), None);
}

#[test]
fn menu_item_looks() {
    let mut m = Menu::new(Scale::Major).initial_variant(Scale::Minor);
    assert_eq!(m.item_look(1), ItemLook::Selected);
    assert_eq!(m.item_look(3), ItemLook::NonSelected);
    m.update(&input(true, true, on_item(0), false));
    m.update(&input(true, true, on_item(0), true));
    m.update(&input(true, false, on_item(3), false));
    assert_eq!(m.item_look(3), ItemLook::Hovered);
    assert_eq!(m.item_look(1), ItemLook::Selected);
    assert_eq!(m.item_look(0), ItemLook::NonSelected);
}
