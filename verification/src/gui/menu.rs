//! The selection logic of the menu UI component.
//!
//! A menu exposes an enum implementing [`MenuEnum`] as a list of items. The
//! geometry (which rectangle the mouse is over) is measured by the caller and
//! handed in as a [`MenuInput`]; this module decides what the menu does with it.
use vstd::prelude::*;
use crate::gui::components::{str_to_option, UIComponentState};
use crate::menu_enum::MenuEnum;

verus! {

/// What the menu sees of the mouse and keyboard in one frame.
pub struct MenuInput {
    /// Whether the mouse is inside the menu's bounding rect.
    pub mouse_in_menu: bool,
    /// Whether the mouse is inside the top item (the collapsed menu).
    pub mouse_in_top_item: bool,
    /// For each item of the open menu, whether the mouse is inside it.
    pub mouse_in_items: Vec<bool>,
    /// Whether the left mouse button is down.
    pub is_left_clicked: bool,
    /// Whether the alt modifier is down.
    pub is_alt_down: bool,
    /// Whether the OS modifier key is down.
    pub is_os_mod_down: bool,
}

/// The abstract state of a menu.
pub struct MenuView<E> {
    /// The label drawn above the menu, if any.
    pub label: Option<Seq<char>>,
    /// The selected item.
    pub variant: E,
    /// The item an alt- or OS-modifier click resets the menu to.
    pub default_variant: E,
    /// The item under the mouse while the menu is open, if any.
    pub hovered_idx: Option<usize>,
    /// Whether the list of items is shown.
    pub is_open: bool,
    /// Whether the menu closed on the current click (which must be released
    /// before the menu can open again).
    pub was_just_closed: bool,
    /// Whether a click on the top item may open the menu.
    pub can_open: bool,
    /// Whether a click on an item may select it (the click that opened the
    /// menu must be released first).
    pub can_update_state: bool,
    /// The interaction state of the menu.
    pub state: UIComponentState,
}

/// A menu over the enum `E`: its label and its selection state. Where its
/// items are drawn is the caller's concern.
pub struct Menu<E: MenuEnum> {
    label: Option<String>,
    variant: E,
    default_variant: E,
    hovered_idx: Option<usize>,
    is_open: bool,
    was_just_closed: bool,
    can_open: bool,
    can_update_state: bool,
    state: UIComponentState,
}

/// How an item of an open menu is drawn.
#[derive(Clone, Copy, Debug, PartialEq, Eq, Structural)]
pub enum ItemLook {
    /// The selected item.
    Selected,
    /// The item under the mouse.
    Hovered,
    /// Any other item.
    NonSelected,
}

/// `k` is the first index of `s` that holds `true`.
pub open spec fn is_first_hit(s: Seq<bool>, k: int) -> bool {
    &&& 0 <= k < s.len()
    &&& s[k]
    &&& forall|j: int| 0 <= j < k ==> !#[trigger] s[j]
}

/// `k` is the last index of `s` that holds `true`.
pub open spec fn is_last_hit(s: Seq<bool>, k: int) -> bool {
    &&& 0 <= k < s.len()
    &&& s[k]
    &&& forall|j: int| k < j < s.len() ==> !#[trigger] s[j]
}

/// Some index of `s` holds `true`.
pub open spec fn has_hit(s: Seq<bool>) -> bool {
    exists|j: int| 0 <= j < s.len() && #[trigger] s[j]
}

/// The first index of `s` that holds `true` (meaningful when `has_hit(s)`).
pub open spec fn first_hit(s: Seq<bool>) -> int {
    choose|k: int| is_first_hit(s, k)
}

/// The last index of `s` that holds `true` (meaningful when `has_hit(s)`).
pub open spec fn last_hit(s: Seq<bool>) -> int {
    choose|k: int| is_last_hit(s, k)
}

/// Whether the top item may open the menu after this frame: a click that
/// started outside the top item must be released before it can open the menu.
pub open spec fn next_can_open<E>(v: MenuView<E>, inp: MenuInput) -> bool {
    if !inp.mouse_in_top_item {
        !inp.is_left_clicked
    } else if !v.can_open && !inp.is_left_clicked {
        true
    } else {
        v.can_open
    }
}

/// The menu reacts to this frame: it is open, or clicked inside.
pub open spec fn menu_is_active<E>(v: MenuView<E>, inp: MenuInput) -> bool {
    (inp.mouse_in_menu && inp.is_left_clicked) || v.is_open
}

/// The next state of a menu and the variant it reports as selected, if any,
/// for one frame of input.
pub open spec fn menu_step<E: MenuEnum>(v: MenuView<E>, inp: MenuInput) -> (MenuView<E>, Option<E>) {
    let clicked = inp.is_left_clicked;
    let items = inp.mouse_in_items@;
    let can_open = next_can_open(v, inp);
    if !menu_is_active(v, inp) {
        (
            MenuView {
                can_open,
                was_just_closed: v.was_just_closed && clicked,
                state: UIComponentState::Idle,
                ..v
            },
            None,
        )
    } else {
        let still_open = v.is_open && !(!inp.mouse_in_menu && v.hovered_idx is None && clicked);
        let opening = !still_open && inp.mouse_in_top_item && clicked && !v.was_just_closed
            && can_open;
        if opening && (inp.is_alt_down || inp.is_os_mod_down) {
            (
                MenuView { can_open, is_open: still_open, variant: v.default_variant, ..v },
                Some(v.default_variant),
            )
        } else {
            let is_open = still_open || opening;
            let can_update = !opening && v.can_update_state;
            if !is_open {
                (MenuView { can_open, is_open, can_update_state: can_update, ..v }, None)
            } else if clicked {
                if can_update && has_hit(items) {
                    let k = first_hit(items);
                    let e = E::spec_from_idx(k as nat).unwrap();
                    (
                        MenuView {
                            can_open,
                            is_open: false,
                            was_just_closed: true,
                            can_update_state: false,
                            variant: e,
                            hovered_idx: if k == 0 {
                                v.hovered_idx
                            } else {
                                None
                            },
                            ..v
                        },
                        Some(e),
                    )
                } else {
                    (
                        MenuView {
                            can_open,
                            is_open: true,
                            can_update_state: can_update,
                            hovered_idx: if items.len() == 0 {
                                v.hovered_idx
                            } else {
                                None
                            },
                            ..v
                        },
                        None,
                    )
                }
            } else {
                (
                    MenuView {
                        can_open,
                        is_open: true,
                        can_update_state: true,
                        hovered_idx: if has_hit(items) {
                            Some(last_hit(items) as usize)
                        } else {
                            v.hovered_idx
                        },
                        ..v
                    },
                    None,
                )
            }
        }
    }
}

impl<E: MenuEnum> View for Menu<E> {
    type V = MenuView<E>;

    closed spec fn view(&self) -> MenuView<E> {
        MenuView {
            label: match self.label {
                Some(l) => Some(l@),
                None => None,
            },
            variant: self.variant,
            default_variant: self.default_variant,
            hovered_idx: self.hovered_idx,
            is_open: self.is_open,
            was_just_closed: self.was_just_closed,
            can_open: self.can_open,
            can_update_state: self.can_update_state,
            state: self.state,
        }
    }
}

/// The hovered item, if any, is one of the menu's items.
pub open spec fn menu_view_wf<E: MenuEnum>(v: MenuView<E>) -> bool {
    v.hovered_idx matches Some(h) ==> h < E::spec_num_variants()
}

impl<E: MenuEnum> Menu<E> {
    /// The state of a new, closed menu showing `default_variant`.
    pub fn new(default_variant: E) -> (m: Self)
        ensures
            m@ == (MenuView {
                label: None,
                variant: default_variant,
                default_variant,
                hovered_idx: None,
                is_open: false,
                was_just_closed: false,
                can_open: false,
                can_update_state: false,
                state: UIComponentState::Idle,
            }),
            menu_view_wf(m@),
    {
        Menu {
            label: None,
            variant: default_variant,
            default_variant,
            hovered_idx: None,
            is_open: false,
            was_just_closed: false,
            can_open: false,
            can_update_state: false,
            state: UIComponentState::Idle,
        }
    }

    /// The same menu with a label; an empty label means none.
    pub fn with_label(self, label: &str) -> (m: Self)
        ensures
            m@ == (MenuView {
                label: if label@.len() == 0 {
                    None
                } else {
                    Some(label@)
                },
                ..self@
            }),
    {
        Menu { label: str_to_option(label), ..self }
    }

    /// The label of the menu, if it has one.
    pub fn label(&self) -> (l: Option<&str>)
        ensures
            match l {
                Some(s) => self@.label == Some(s@),
                None => self@.label is None,
            },
    {
        match &self.label {
            Some(s) => Some(s.as_str()),
            None => None,
        }
    }

    /// The same menu, starting open.
    pub fn starts_open(self) -> (m: Self)
        ensures
            m@ == (MenuView { is_open: true, ..self@ }),
    {
        Menu { is_open: true, ..self }
    }

    /// The same menu, starting on `variant`.
    pub fn initial_variant(self, variant: E) -> (m: Self)
        ensures
            m@ == (MenuView { variant, ..self@ }),
    {
        Menu { variant, ..self }
    }

    /// The current item of the menu.
    pub fn output(&self) -> (e: E)
        ensures
            e == self@.variant,
    {
        self.variant
    }

    /// The item under the mouse while the menu is open, if any.
    pub fn hovered_idx(&self) -> (h: Option<usize>)
        ensures
            h == self@.hovered_idx,
    {
        self.hovered_idx
    }

    /// Whether the menu is open.
    pub fn is_open(&self) -> (b: bool)
        ensures
            b == self@.is_open,
    {
        self.is_open
    }

    /// The interaction state of the menu.
    pub fn state(&self) -> (s: UIComponentState)
        ensures
            s == self@.state,
    {
        self.state
    }

    /// How item `i` of the open menu is drawn: the selected item stands out
    /// first, then the item under the mouse.
    pub fn item_look(&self, i: usize) -> (l: ItemLook)
        ensures
            l == (if i == self@.variant.spec_idx() {
                ItemLook::Selected
            } else if self@.hovered_idx == Some(i) {
                ItemLook::Hovered
            } else {
                ItemLook::NonSelected
            }),
    {
        let is_selected = i == self.variant.idx();
        match self.hovered_idx {
            None => if is_selected {
                ItemLook::Selected
            } else {
                ItemLook::NonSelected
            },
            Some(idx) => if is_selected {
                ItemLook::Selected
            } else if i == idx {
                ItemLook::Hovered
            } else {
                ItemLook::NonSelected
            },
        }
    }

    /// Whether the menu reacts to this input: it is clicked inside, or open.
    pub fn should_update(&self, input: &MenuInput) -> (b: bool)
        ensures
            b == menu_is_active(self@, *input),
    {
        (input.mouse_in_menu && input.is_left_clicked) || self.is_open
    }

    /// Puts the menu back on its default item; returns that item, which the
    /// menu reports to its callback.
    pub fn reset_to_default(&mut self) -> (e: E)
        ensures
            final(self)@ == (MenuView { variant: old(self)@.default_variant, ..old(self)@ }),
            e == old(self)@.default_variant,
    {
        self.variant = self.default_variant;
        self.variant
    }

    /// Runs one frame of the menu's interaction; returns the item that was
    /// selected in this frame, which the menu reports to its callback.
    pub fn update(&mut self, input: &MenuInput) -> (selected: Option<E>)
        requires
            input.mouse_in_items@.len() == E::spec_num_variants(),
            menu_view_wf(old(self)@),
        ensures
            (final(self)@, selected) == menu_step(old(self)@, *input),
            menu_view_wf(final(self)@),
    {
        let clicked = input.is_left_clicked;
        let ghost items = input.mouse_in_items@;
        // guard against the mouse already being down when entering the top item
        if !input.mouse_in_top_item {
            self.can_open = !clicked;
        } else if !self.can_open && !clicked {
            self.can_open = true;
        }
        if !self.should_update(input) {
            if !clicked && self.was_just_closed {
                self.was_just_closed = false;
            }
            self.state = UIComponentState::Idle;
            return None;
        }
        // close on a click outside the menu
        if !input.mouse_in_menu && self.hovered_idx.is_none() && clicked {
            self.is_open = false;
        }
        // open on a fresh click on the top item
        if !self.is_open && input.mouse_in_top_item && clicked && !self.was_just_closed
            && self.can_open {
            if input.is_alt_down || input.is_os_mod_down {
                let e = self.reset_to_default();
                return Some(e);
            }
            self.can_update_state = false;
            self.is_open = true;
        }
        if !self.is_open {
            return None;
        }
        let n = E::num_variants();
        if clicked {
            let mut hovered = self.hovered_idx;
            let mut k: usize = 0;
            let mut found = false;
            let can_update = self.can_update_state;
            while k < n && !found
                invariant
                    n == E::spec_num_variants(),
                    items == input.mouse_in_items@,
                    items.len() == n,
                    k <= n,
                    found ==> k < n && can_update && is_first_hit(items, k as int),
                    !found ==> forall|j: int| 0 <= j < k ==> !(can_update && #[trigger] items[j]),
                    hovered == (if k == 0 {
                        self.hovered_idx
                    } else {
                        None::<usize>
                    }),
                decreases 2 * (n - k) + (if found { 0int } else { 1int }),
            {
                if input.mouse_in_items[k] && can_update {
                    found = true;
                } else {
                    hovered = None;
                    k = k + 1;
                }
            }
            if found {
                proof {
                    E::lemma_from_idx_inverse(k as nat);
                    assert(has_hit(items)) by {
                        assert(items[k as int]);
                    }
                    let c = first_hit(items);
                    assert(is_first_hit(items, c));
                    assert(items[c]);
                    assert(c == k as int);
                }
                let e = E::from_idx(k).unwrap();
                self.variant = e;
                self.can_update_state = false;
                self.is_open = false;
                self.was_just_closed = true;
                self.hovered_idx = hovered;
                Some(e)
            } else {
                proof {
                    if can_update && has_hit(items) {
                        let j = choose|j: int| 0 <= j < items.len() && #[trigger] items[j];
                        assert(!(can_update && items[j]));
                    }
                }
                self.hovered_idx = hovered;
                None
            }
        } else {
            let mut hovered = self.hovered_idx;
            let mut k: usize = 0;
            while k < n
                invariant
                    n == E::spec_num_variants(),
                    items == input.mouse_in_items@,
                    items.len() == n,
                    k <= n,
                    (forall|j: int| 0 <= j < k ==> !#[trigger] items[j]) ==> hovered
                        == self.hovered_idx,
                    hovered matches Some(h) ==> h < n,
                    !(forall|j: int| 0 <= j < k ==> !#[trigger] items[j]) ==> (hovered matches Some(h)
                        && h < k && items[h as int] && forall|j: int|
                        h < j < k ==> !#[trigger] items[j]),
                decreases n - k,
            {
                if input.mouse_in_items[k] {
                    hovered = Some(k);
                }
                k = k + 1;
            }
            proof {
                if has_hit(items) {
                    let j = choose|j: int| 0 <= j < items.len() && #[trigger] items[j];
                    assert(items[j]);
                    let h = hovered.unwrap() as int;
                    assert(is_last_hit(items, h));
                    let c = last_hit(items);
                    assert(is_last_hit(items, c));
                    assert(items[c]);
                    assert(items[h]);
                    assert(c == h);
                }
            }
            self.hovered_idx = hovered;
            self.can_update_state = true;
            None
        }
    }
}

/// An item selected by a frame is one of the menu's items; the menu closes on
/// it and shows it.
pub proof fn lemma_selection_closes_menu<E: MenuEnum>(v: MenuView<E>, inp: MenuInput)
    requires
        menu_view_wf(v),
        inp.mouse_in_items@.len() == E::spec_num_variants(),
    ensures
        menu_step(v, inp).1 matches Some(e) ==> {
            &&& !menu_step(v, inp).0.is_open
            &&& menu_step(v, inp).0.variant == e
            &&& e.spec_idx() < E::spec_num_variants()
        },
{
    if let Some(e) = menu_step(v, inp).1 {
        e.lemma_idx_round_trip();
    }
}

/// A sequence with a `true` at `j` has a first `true`, and it lies at or
/// before `j`.
proof fn lemma_first_hit_exists(s: Seq<bool>, j: int)
    requires
        0 <= j < s.len(),
        s[j],
    ensures
        is_first_hit(s, first_hit(s)),
        first_hit(s) <= j,
    decreases j,
{
    if forall|i: int| 0 <= i < j ==> !#[trigger] s[i] {
        assert(is_first_hit(s, j));
        let k = first_hit(s);
        if k < j {
            assert(s[k]);
        } else if k > j {
            assert(!s[j]);
        }
    } else {
        let i = choose|i: int| 0 <= i < j && #[trigger] s[i];
        lemma_first_hit_exists(s, i);
    }
}

/// What a frame reports is the item the user picked. While the open menu
/// stays open (the click is not outside it), a reported item is the first
/// item under the clicking mouse: its index is that item's index. Otherwise a
/// reported item is the default one, picked by a modifier click on the top
/// item. And an open menu that may update, clicked with the mouse over some
/// item, does report one.
pub proof fn lemma_selection_is_item_under_mouse<E: MenuEnum>(v: MenuView<E>, inp: MenuInput)
    requires
        menu_view_wf(v),
        inp.mouse_in_items@.len() == E::spec_num_variants(),
    ensures
        menu_step(v, inp).1 matches Some(e) ==> if v.is_open && (inp.mouse_in_menu
            || v.hovered_idx is Some) {
            &&& inp.is_left_clicked
            &&& v.can_update_state
            &&& is_first_hit(inp.mouse_in_items@, e.spec_idx() as int)
        } else {
            &&& e == v.default_variant
            &&& inp.is_alt_down || inp.is_os_mod_down
        },
        v.is_open && (inp.mouse_in_menu || v.hovered_idx is Some) && inp.is_left_clicked
            && v.can_update_state && has_hit(inp.mouse_in_items@) ==> menu_step(v, inp).1 is Some,
{
    let items = inp.mouse_in_items@;
    if has_hit(items) {
        let j = choose|j: int| 0 <= j < items.len() && #[trigger] items[j];
        lemma_first_hit_exists(items, j);
        let k = first_hit(items);
        E::lemma_from_idx_inverse(k as nat);
    }
}

/// A sequence with a `true` at `j` has a last `true`, and it lies at or after
/// `j`.
proof fn lemma_last_hit_exists(s: Seq<bool>, j: int)
    requires
        0 <= j < s.len(),
        s[j],
    ensures
        is_last_hit(s, last_hit(s)),
        j <= last_hit(s),
    decreases s.len() - j,
{
    if forall|i: int| j < i < s.len() ==> !#[trigger] s[i] {
        assert(is_last_hit(s, j));
        let k = last_hit(s);
        if k < j {
            assert(!s[j]);
        } else if k > j {
            assert(s[k]);
        }
    } else {
        let i = choose|i: int| j < i < s.len() && #[trigger] s[i];
        lemma_last_hit_exists(s, i);
    }
}

/// While the open menu is not clicked, it stays open, keeps its item, reports
/// nothing and lets the next click select; the item it shows as hovered is
/// the last item under the mouse, or the one it showed before where the mouse
/// is over no item.
pub proof fn lemma_hover_follows_mouse<E: MenuEnum>(v: MenuView<E>, inp: MenuInput)
    requires
        menu_view_wf(v),
        inp.mouse_in_items@.len() == E::spec_num_variants(),
        v.is_open,
        !inp.is_left_clicked,
    ensures
        menu_step(v, inp).1 is None,
        menu_step(v, inp).0.is_open,
        menu_step(v, inp).0.can_update_state,
        menu_step(v, inp).0.variant == v.variant,
        has_hit(inp.mouse_in_items@) ==> (menu_step(v, inp).0.hovered_idx matches Some(h)
            && is_last_hit(inp.mouse_in_items@, h as int)),
        !has_hit(inp.mouse_in_items@) ==> menu_step(v, inp).0.hovered_idx == v.hovered_idx,
{
    let items = inp.mouse_in_items@;
    if has_hit(items) {
        let j = choose|j: int| 0 <= j < items.len() && #[trigger] items[j];
        lemma_last_hit_exists(items, j);
        assert(items.len() == inp.mouse_in_items.len());
        assert(last_hit(items) as usize as int == last_hit(items));
    }
}

/// A click outside the open menu, with no item hovered, closes it without
/// changing its item or reporting one.
pub proof fn lemma_click_outside_closes_menu<E: MenuEnum>(v: MenuView<E>, inp: MenuInput)
    requires
        v.is_open,
        v.hovered_idx is None,
        inp.is_left_clicked,
        !inp.mouse_in_menu,
        !inp.mouse_in_top_item,
    ensures
        !menu_step(v, inp).0.is_open,
        menu_step(v, inp).0.variant == v.variant,
        menu_step(v, inp).1 is None,
{
}

/// A fresh click on the top item of a closed menu (the button was up when the
/// mouse entered it, and no click that closed the menu is still held) opens
/// the menu and reports nothing; with the alt or OS modifier down it instead
/// puts the menu back on its default item, reports that item and leaves the
/// menu closed. A click that was already down when the mouse reached the top
/// item opens nothing.
pub proof fn lemma_fresh_click_opens_menu<E: MenuEnum>(v: MenuView<E>, inp: MenuInput)
    requires
        !v.is_open,
        inp.mouse_in_top_item,
        inp.mouse_in_menu,
        inp.is_left_clicked,
        !v.was_just_closed,
    ensures
        v.can_open && !(inp.is_alt_down || inp.is_os_mod_down) ==> {
            &&& menu_step(v, inp).0.is_open
            &&& menu_step(v, inp).0.variant == v.variant
            &&& menu_step(v, inp).1 is None
        },
        v.can_open && (inp.is_alt_down || inp.is_os_mod_down) ==> {
            &&& !menu_step(v, inp).0.is_open
            &&& menu_step(v, inp).0.variant == v.default_variant
            &&& menu_step(v, inp).1 == Some(v.default_variant)
        },
        !v.can_open ==> !menu_step(v, inp).0.is_open && menu_step(v, inp).1 is None,
{
}

/// The click that opens the menu cannot also select an item: selecting needs
/// the button to be released first.
pub proof fn lemma_opening_click_selects_nothing<E: MenuEnum>(v: MenuView<E>, inp: MenuInput)
    requires
        !v.is_open,
        menu_step(v, inp).0.is_open,
    ensures
        menu_step(v, inp).1 is None,
        !menu_step(v, inp).0.can_update_state,
{
}

/// While the click that closed the menu is held, the menu stays closed and
/// selects nothing.
pub proof fn lemma_held_click_keeps_menu_closed<E: MenuEnum>(v: MenuView<E>, inp: MenuInput)
    requires
        !v.is_open,
        v.was_just_closed,
        inp.is_left_clicked,
    ensures
        !menu_step(v, inp).0.is_open,
        menu_step(v, inp).0.was_just_closed,
        menu_step(v, inp).1 is None,
{
}

/// A closed menu that is not clicked inside stays closed, keeps its item and
/// goes idle.
pub proof fn lemma_idle_menu_keeps_item<E: MenuEnum>(v: MenuView<E>, inp: MenuInput)
    requires
        !v.is_open,
        !(inp.mouse_in_menu && inp.is_left_clicked),
    ensures
        !menu_step(v, inp).0.is_open,
        menu_step(v, inp).0.variant == v.variant,
        menu_step(v, inp).0.state == UIComponentState::Idle,
        menu_step(v, inp).1 is None,
{
}

} // verus!
