//! State and helpers shared by the UI components.
use vstd::prelude::*;

verus! {

/// The interaction state of a UI component.
#[derive(Clone, Copy, Debug, PartialEq, Eq, Structural)]
pub enum UIComponentState {
    Idle,
    Hovered,
    Disabled,
    Clicked,
}

impl Default for UIComponentState {
    /// A component starts idle.
    fn default() -> (s: Self)
        ensures
            s == UIComponentState::Idle,
    {
        UIComponentState::Idle
    }
}

/// `None` for an empty string, and an owned copy of it otherwise.
pub fn str_to_option(s: &str) -> (o: Option<String>)
    ensures
        match o {
            Some(t) => s@.len() > 0 && t@ == s@,
            None => s@.len() == 0,
        },
{
    if s.is_empty() {
        None
    } else {
        Some(s.to_owned())
    }
}

} // verus!
