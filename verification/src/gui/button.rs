//! The press logic and texts of the button UI component.
//!
//! A button is either a toggle, with two states flipped by each press, or a
//! one-shot trigger. The caller measures whether the mouse is over the button
//! and hands that in; this module decides what the press does.
use vstd::prelude::*;
use crate::gui::components::{str_to_option, UIComponentState};

verus! {

/// The abstract state of a button.
pub struct ButtonView {
    /// The interaction state of the button.
    pub state: UIComponentState,
    /// The label of the button, if any.
    pub label: Option<Seq<char>>,
    /// The text a toggle shows while enabled.
    pub enabled_text: Seq<char>,
    /// The text a toggle shows while disabled.
    pub disabled_text: Seq<char>,
    /// Whether the button toggles (or triggers once per press).
    pub is_toggle: bool,
    /// The state of a toggle.
    pub enabled: bool,
    /// Whether a press over the button counts: false while a press that
    /// started elsewhere is held.
    pub can_be_clicked: bool,
}

/// A button: its texts and its press state. Where it is drawn is the caller's
/// concern.
pub struct Button {
    state: UIComponentState,
    label: Option<String>,
    enabled_text: String,
    disabled_text: String,
    is_toggle: bool,
    enabled: bool,
    can_be_clicked: bool,
}

/// The view of an optional owned string.
pub open spec fn opt_string_view(s: Option<String>) -> Option<Seq<char>> {
    match s {
        Some(t) => Some(t@),
        None => None,
    }
}

/// The next state of a button and the value it reports to its callback, if
/// any, for one frame in which the mouse is (or is not) over the button.
pub open spec fn button_step(v: ButtonView, mouse_over: bool, left_clicked: bool) -> (
    ButtonView,
    Option<bool>,
) {
    if !mouse_over {
        (ButtonView { can_be_clicked: false, ..v }, None)
    } else if !v.can_be_clicked && left_clicked {
        // the button was already down when the mouse arrived
        (v, None)
    } else {
        let v1 = ButtonView { can_be_clicked: true, ..v };
        if v.is_toggle {
            if left_clicked && v.state != UIComponentState::Clicked {
                (
                    ButtonView { state: UIComponentState::Clicked, enabled: !v.enabled, ..v1 },
                    Some(!v.enabled),
                )
            } else if !left_clicked && v.state == UIComponentState::Clicked {
                (ButtonView { state: UIComponentState::Hovered, ..v1 }, None)
            } else {
                (v1, None)
            }
        } else if left_clicked {
            if v.state != UIComponentState::Clicked {
                (ButtonView { state: UIComponentState::Clicked, ..v1 }, Some(true))
            } else {
                (v1, None)
            }
        } else {
            (ButtonView { state: UIComponentState::Hovered, ..v1 }, None)
        }
    }
}

impl View for Button {
    type V = ButtonView;

    closed spec fn view(&self) -> ButtonView {
        ButtonView {
            state: self.state,
            label: opt_string_view(self.label),
            enabled_text: self.enabled_text@,
            disabled_text: self.disabled_text@,
            is_toggle: self.is_toggle,
            enabled: self.enabled,
            can_be_clicked: self.can_be_clicked,
        }
    }
}

impl Button {
    /// A new, idle, disabled toggle button with the texts "On" and "Off".
    pub fn new() -> (b: Self)
        ensures
            b@.state == UIComponentState::Idle,
            b@.label is None,
            b@.enabled_text == "On"@,
            b@.disabled_text == "Off"@,
            b@.is_toggle,
            !b@.enabled,
            !b@.can_be_clicked,
    {
        Button {
            state: UIComponentState::Idle,
            label: None,
            enabled_text: "On".to_owned(),
            disabled_text: "Off".to_owned(),
            is_toggle: true,
            enabled: false,
            can_be_clicked: false,
        }
    }

    /// The same button with a label; an empty label means none.
    pub fn with_label(self, label: &str) -> (b: Self)
        ensures
            b@ == (ButtonView {
                label: if label@.len() == 0 {
                    None
                } else {
                    Some(label@)
                },
                ..self@
            }),
    {
        Button { label: str_to_option(label), ..self }
    }

    /// The same button with the text shown while a toggle is enabled.
    pub fn with_enabled_text(self, text: &str) -> (b: Self)
        ensures
            b@ == (ButtonView { enabled_text: text@, ..self@ }),
    {
        Button { enabled_text: text.to_owned(), ..self }
    }

    /// The same button with the text shown while a toggle is disabled.
    pub fn with_disabled_text(self, text: &str) -> (b: Self)
        ensures
            b@ == (ButtonView { disabled_text: text@, ..self@ }),
    {
        Button { disabled_text: text.to_owned(), ..self }
    }

    /// The same button with the given initial toggle state.
    pub fn with_state(self, enabled: bool) -> (b: Self)
        ensures
            b@ == (ButtonView { enabled, ..self@ }),
    {
        Button { enabled, ..self }
    }

    /// The same button, as a toggle or as a one-shot trigger.
    pub fn toggleable(self, should_be_toggleable: bool) -> (b: Self)
        ensures
            b@ == (ButtonView { is_toggle: should_be_toggleable, ..self@ }),
    {
        Button { is_toggle: should_be_toggleable, ..self }
    }

    /// Whether the toggle is enabled.
    pub fn enabled(&self) -> (e: bool)
        ensures
            e == self@.enabled,
    {
        self.enabled
    }

    /// The interaction state of the button.
    pub fn state(&self) -> (s: UIComponentState)
        ensures
            s == self@.state,
    {
        self.state
    }

    /// Whether the button is a toggle.
    pub fn is_toggle(&self) -> (t: bool)
        ensures
            t == self@.is_toggle,
    {
        self.is_toggle
    }

    /// The main text of the button: the label of a trigger ("Button" when it
    /// has none), or the state text of a toggle.
    pub fn text(&self) -> (t: &str)
        ensures
            t@ == (if !self@.is_toggle {
                match self@.label {
                    Some(l) => l,
                    None => "Button"@,
                }
            } else if self@.enabled {
                self@.enabled_text
            } else {
                self@.disabled_text
            }),
    {
        if !self.is_toggle {
            match &self.label {
                Some(l) => l.as_str(),
                None => "Button",
            }
        } else if self.enabled {
            self.enabled_text.as_str()
        } else {
            self.disabled_text.as_str()
        }
    }

    /// The label of the button, if it has one.
    pub fn label(&self) -> (l: Option<&str>)
        ensures
            match l {
                Some(s) => self@.label == Some(s@),
                None => self@.label is None,
            },
    {
        match &self.label {
            Some(s) => Some(s.as_str()),
            None => None,
        }
    }

    /// Runs one frame of the button's interaction; returns the value the
    /// button reports to its callback in this frame, if any: the new state of
    /// a toggle, or `true` for a trigger.
    pub fn update(&mut self, mouse_over: bool, left_clicked: bool) -> (pressed: Option<bool>)
        ensures
            (final(self)@, pressed) == button_step(old(self)@, mouse_over, left_clicked),
    {
        if !mouse_over {
            self.can_be_clicked = false;
            return None;
        }
        // the mouse button may already be down when hovering over the button
        if !self.can_be_clicked {
            if left_clicked {
                return None;
            }
            self.can_be_clicked = true;
        }
        if self.is_toggle {
            if left_clicked && self.state != UIComponentState::Clicked {
                self.state = UIComponentState::Clicked;
                self.enabled = !self.enabled;
                Some(self.enabled)
            } else {
                if !left_clicked && self.state == UIComponentState::Clicked {
                    self.state = UIComponentState::Hovered;
                }
                None
            }
        } else if left_clicked {
            if self.state != UIComponentState::Clicked {
                self.state = UIComponentState::Clicked;
                Some(true)
            } else {
                None
            }
        } else {
            self.state = UIComponentState::Hovered;
            None
        }
    }
}

/// A trigger always reports `true`; a toggle reports its new state, which is
/// the opposite of the old one.
pub proof fn lemma_press_reports(v: ButtonView, mouse_over: bool, left_clicked: bool)
    ensures
        button_step(v, mouse_over, left_clicked).1 matches Some(b) ==> {
            &&& !v.is_toggle ==> b
            &&& v.is_toggle ==> b == button_step(v, mouse_over, left_clicked).0.enabled && b
                != v.enabled
        },
{
}

/// Only a reported press changes the state of a toggle: a frame that reports
/// nothing leaves it as it was, and no frame changes the kind of button, its
/// label or its texts. In particular a frame in which the mouse is away from
/// the button reports nothing and keeps the toggle and the interaction state;
/// it only makes a press that is now held not count when the mouse comes back.
pub proof fn lemma_toggle_changes_only_on_press(v: ButtonView, mouse_over: bool, left_clicked: bool)
    ensures
        button_step(v, mouse_over, left_clicked).1 is None ==> button_step(
            v,
            mouse_over,
            left_clicked,
        ).0.enabled == v.enabled,
        button_step(v, mouse_over, left_clicked).0.is_toggle == v.is_toggle,
        button_step(v, mouse_over, left_clicked).0.label == v.label,
        button_step(v, mouse_over, left_clicked).0.enabled_text == v.enabled_text,
        button_step(v, mouse_over, left_clicked).0.disabled_text == v.disabled_text,
        !mouse_over ==> {
            &&& button_step(v, mouse_over, left_clicked).1 is None
            &&& button_step(v, mouse_over, left_clicked).0.enabled == v.enabled
            &&& button_step(v, mouse_over, left_clicked).0.state == v.state
            &&& !button_step(v, mouse_over, left_clicked).0.can_be_clicked
        },
{
}

/// A fresh press over the button (one that did not start elsewhere, on a
/// button not already pressed) is reported: a trigger reports `true`, a
/// toggle flips and reports its new state. The button then counts as
/// clicked.
pub proof fn lemma_fresh_press_is_reported(v: ButtonView)
    requires
        v.can_be_clicked,
        v.state != UIComponentState::Clicked,
    ensures
        button_step(v, true, true).1 == Some(
            if v.is_toggle {
                !v.enabled
            } else {
                true
            },
        ),
        button_step(v, true, true).0.state == UIComponentState::Clicked,
{
}

/// Holding the button down presses it only once: the frame after a press,
/// with the button still down, reports nothing and changes no toggle.
pub proof fn lemma_held_press_fires_once(v: ButtonView)
    requires
        button_step(v, true, true).1 is Some,
    ensures
        button_step(button_step(v, true, true).0, true, true).1 is None,
        button_step(button_step(v, true, true).0, true, true).0.enabled == button_step(
            v,
            true,
            true,
        ).0.enabled,
{
}

/// A press that starts outside the button does nothing when the mouse is
/// dragged onto it: the button must be released over it first.
pub proof fn lemma_press_from_outside_is_ignored(v: ButtonView)
    ensures
        button_step(button_step(v, false, true).0, true, true).1 is None,
{
}

/// Pressing a toggle twice (press, release, press, release) gives back its
/// starting state.
pub proof fn lemma_toggle_twice_restores(v: ButtonView)
    requires
        v.is_toggle,
        v.can_be_clicked,
        v.state != UIComponentState::Clicked,
    ensures
        ({
            let v1 = button_step(v, true, true).0;
            let v2 = button_step(v1, true, false).0;
            let v3 = button_step(v2, true, true).0;
            let v4 = button_step(v3, true, false).0;
            v4.enabled == v.enabled && button_step(v, true, true).1 == Some(!v.enabled)
                && button_step(v2, true, true).1 == Some(v.enabled)
        }),
{
}

} // verus!
