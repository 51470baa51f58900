//! The mouse logic of the 3-band EQ display.
//!
//! The display shows a draggable node for each of its three filters over the
//! spectrum. The caller measures which rectangles the mouse is in; this module
//! decides which node is being dragged, and when the nodes must instead follow
//! the filter parameters.
use vstd::prelude::*;

verus! {

/// The filter node that is being dragged.
#[derive(Clone, Copy, Debug, PartialEq, Eq, Structural)]
pub enum NodeType {
    Low,
    Peak,
    High,
}

/// What the display sees of the mouse in one frame.
#[derive(Clone, Copy, Debug, PartialEq, Eq, Structural)]
pub struct EQMouseInput {
    /// Whether the left mouse button is down.
    pub is_left_clicked: bool,
    /// Whether the mouse is inside the spectrum rect.
    pub in_spectrum: bool,
    /// Whether the mouse is over the low filter node.
    pub on_low_node: bool,
    /// Whether the mouse is over the peak filter node.
    pub on_peak_node: bool,
    /// Whether the mouse is over the high filter node.
    pub on_high_node: bool,
}

/// What the display does in one frame.
#[derive(Clone, Copy, Debug, PartialEq, Eq, Structural)]
pub struct EQFrame {
    /// The node that follows the mouse (and whose filter follows the node).
    pub dragged: Option<NodeType>,
    /// Whether the nodes are moved to match the filter parameters.
    pub sync_nodes_from_params: bool,
}

/// The click state of the EQ display.
#[derive(Clone, Copy, Debug, PartialEq, Eq, Structural)]
pub struct EQClickState {
    /// The node grabbed by the current click, if any.
    pub clicked_node: Option<NodeType>,
    /// Whether the current click started in (or entered) the spectrum.
    pub spectrum_is_clicked: bool,
    /// Whether the current click started outside the spectrum.
    pub clicked_outside_of_spectrum: bool,
}

/// The node a click grabs: the node already held, else the first node under
/// the mouse in the order low, peak, high.
pub open spec fn grabbed_node(held: Option<NodeType>, inp: EQMouseInput) -> Option<NodeType> {
    if held is Some {
        held
    } else if inp.on_low_node {
        Some(NodeType::Low)
    } else if inp.on_peak_node {
        Some(NodeType::Peak)
    } else if inp.on_high_node {
        Some(NodeType::High)
    } else {
        None
    }
}

/// The next click state and the frame's action for one frame of input.
pub open spec fn eq_step(s: EQClickState, inp: EQMouseInput) -> (EQClickState, EQFrame) {
    if !inp.is_left_clicked {
        (
            EQClickState {
                clicked_node: None,
                spectrum_is_clicked: false,
                clicked_outside_of_spectrum: false,
            },
            EQFrame { dragged: None, sync_nodes_from_params: false },
        )
    } else if inp.in_spectrum || s.spectrum_is_clicked {
        if !s.clicked_outside_of_spectrum {
            let node = grabbed_node(s.clicked_node, inp);
            (
                EQClickState { clicked_node: node, spectrum_is_clicked: true, ..s },
                EQFrame { dragged: node, sync_nodes_from_params: false },
            )
        } else {
            (
                EQClickState { spectrum_is_clicked: true, ..s },
                EQFrame { dragged: None, sync_nodes_from_params: true },
            )
        }
    } else {
        (
            EQClickState { clicked_outside_of_spectrum: true, ..s },
            EQFrame { dragged: None, sync_nodes_from_params: true },
        )
    }
}

impl EQClickState {
    /// The state with no click in progress.
    pub open spec fn spec_idle() -> EQClickState {
        EQClickState {
            clicked_node: None,
            spectrum_is_clicked: false,
            clicked_outside_of_spectrum: false,
        }
    }

    /// The state with no click in progress.
    pub fn new() -> (s: Self)
        ensures
            s == (EQClickState {
                clicked_node: None,
                spectrum_is_clicked: false,
                clicked_outside_of_spectrum: false,
            }),
    {
        EQClickState {
            clicked_node: None,
            spectrum_is_clicked: false,
            clicked_outside_of_spectrum: false,
        }
    }

    /// Grabs the first node under the mouse, unless a node is already held.
    pub fn update_clicked_node(&mut self, input: &EQMouseInput)
        ensures
            *final(self) == (EQClickState {
                clicked_node: grabbed_node(old(self).clicked_node, *input),
                ..*old(self)
            }),
    {
        if self.clicked_node.is_some() {
            return;
        }
        if input.on_low_node {
            self.clicked_node = Some(NodeType::Low);
        } else if input.on_peak_node {
            self.clicked_node = Some(NodeType::Peak);
        } else if input.on_high_node {
            self.clicked_node = Some(NodeType::High);
        } else {
            self.clicked_node = None;
        }
    }

    /// Runs one frame of the display's mouse logic.
    pub fn update(&mut self, input: &EQMouseInput) -> (frame: EQFrame)
        ensures
            (*final(self), frame) == eq_step(*old(self), *input),
    {
        let clicked = input.is_left_clicked;
        let mut dragged = None;
        if clicked {
            if input.in_spectrum || self.spectrum_is_clicked {
                if !self.clicked_outside_of_spectrum {
                    self.update_clicked_node(input);
                    dragged = self.clicked_node;
                }
                self.spectrum_is_clicked = true;
            } else if !self.spectrum_is_clicked {
                self.clicked_outside_of_spectrum = true;
            }
        } else {
            self.spectrum_is_clicked = false;
            self.clicked_outside_of_spectrum = false;
            self.clicked_node = None;
        }
        EQFrame {
            dragged,
            sync_nodes_from_params: clicked && self.clicked_outside_of_spectrum,
        }
    }
}

/// When the button is released, nothing is dragged, no node is held and the
/// nodes do not follow the parameters.
pub proof fn lemma_release_resets(s: EQClickState, inp: EQMouseInput)
    requires
        !inp.is_left_clicked,
    ensures
        eq_step(s, inp).0 == EQClickState::spec_idle(),
        eq_step(s, inp).1.dragged is None,
        !eq_step(s, inp).1.sync_nodes_from_params,
{
}

/// A fresh click inside the spectrum grabs and drags the node under the
/// mouse: the low node where the mouse is over it, else the peak node, else
/// the high node; over no node it grabs nothing. The nodes do not follow the
/// parameters during the click.
pub proof fn lemma_fresh_click_grabs_node_under_mouse(inp: EQMouseInput)
    requires
        inp.is_left_clicked,
        inp.in_spectrum,
    ensures
        eq_step(EQClickState::spec_idle(), inp).1.dragged == eq_step(
            EQClickState::spec_idle(),
            inp,
        ).0.clicked_node,
        !eq_step(EQClickState::spec_idle(), inp).1.sync_nodes_from_params,
        eq_step(EQClickState::spec_idle(), inp).0.spectrum_is_clicked,
        inp.on_low_node ==> eq_step(EQClickState::spec_idle(), inp).1.dragged == Some(
            NodeType::Low,
        ),
        !inp.on_low_node && inp.on_peak_node ==> eq_step(EQClickState::spec_idle(), inp).1.dragged
            == Some(NodeType::Peak),
        !inp.on_low_node && !inp.on_peak_node && inp.on_high_node ==> eq_step(
            EQClickState::spec_idle(),
            inp,
        ).1.dragged == Some(NodeType::High),
        !inp.on_low_node && !inp.on_peak_node && !inp.on_high_node ==> eq_step(
            EQClickState::spec_idle(),
            inp,
        ).1.dragged is None,
{
}

/// A frame never both drags a node and moves the nodes to the parameters.
pub proof fn lemma_drag_excludes_sync(s: EQClickState, inp: EQMouseInput)
    ensures
        eq_step(s, inp).1.dragged is Some ==> !eq_step(s, inp).1.sync_nodes_from_params,
{
}

/// A grabbed node stays grabbed, and dragged, for as long as the button is held.
pub proof fn lemma_grabbed_node_is_kept(s: EQClickState, inp: EQMouseInput, n: NodeType)
    requires
        s.clicked_node == Some(n),
        s.spectrum_is_clicked,
        !s.clicked_outside_of_spectrum,
        inp.is_left_clicked,
    ensures
        eq_step(s, inp).0.clicked_node == Some(n),
        eq_step(s, inp).1.dragged == Some(n),
{
}

/// A click that started outside the spectrum never grabs a node, wherever the
/// mouse goes, until it is released.
pub proof fn lemma_outside_click_never_drags(s: EQClickState, inp: EQMouseInput)
    requires
        s.clicked_outside_of_spectrum,
        inp.is_left_clicked,
    ensures
        eq_step(s, inp).0.clicked_outside_of_spectrum,
        eq_step(s, inp).1.dragged is None,
        eq_step(s, inp).1.sync_nodes_from_params,
{
}

} // verus!
