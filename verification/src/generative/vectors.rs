//! The mouse logic of the vector field of moving points.
//!
//! The field holds a number of points, of which the first `num_active_points`
//! move and are drawn. The user can grab a point with the mouse and drag it.
//! The caller measures which points and which rect the mouse is over; this
//! module decides which point is dragged.
use vstd::prelude::*;
use crate::gui::menu::is_first_hit;

verus! {

/// What the point field sees of the mouse in one frame.
pub struct PointsInput {
    /// Whether the left mouse button is down.
    pub is_left_clicked: bool,
    /// Whether the mouse is inside the field's rect.
    pub mouse_in_rect: bool,
    /// For each active point, whether the mouse is over it.
    pub mouse_on_points: Vec<bool>,
}

/// What the point field does in one frame.
#[derive(Clone, Copy, Debug, PartialEq, Eq, Structural)]
pub struct PointsFrame {
    /// Whether the points move this frame (they do not in the frame after
    /// they were overridden).
    pub moves: bool,
    /// The point that is put at the mouse position, if any.
    pub dragged: Option<usize>,
}

/// The selection state of a field of points.
#[derive(Clone, Copy, Debug, PartialEq, Eq, Structural)]
pub struct PointSelection {
    /// The number of points of the field.
    pub num_points: usize,
    /// The number of points that move and are drawn.
    pub num_active_points: usize,
    /// Whether the mouse may drag points.
    pub can_mouse_interact: bool,
    /// Whether the points were overridden since the last frame.
    pub points_overriden: bool,
    /// The point grabbed by the current click, if any.
    pub clicked_idx: Option<usize>,
}

/// The next selection state and the frame's action for one frame of input.
pub open spec fn points_step(s: PointSelection, inp: PointsInput) -> (PointSelection, PointsFrame) {
    let clicked = inp.is_left_clicked;
    let on = inp.mouse_on_points@;
    if s.points_overriden {
        (PointSelection { points_overriden: false, ..s }, PointsFrame { moves: false, dragged: None })
    } else {
        let (held, interact) = if !clicked {
            (None, if inp.mouse_in_rect { true } else { s.can_mouse_interact })
        } else if !inp.mouse_in_rect && s.clicked_idx is None {
            (s.clicked_idx, false)
        } else {
            (s.clicked_idx, s.can_mouse_interact)
        };
        let grabbed = if held is None && clicked && exists|k: int| is_first_hit(on, k) {
            Some((choose|k: int| is_first_hit(on, k)) as usize)
        } else {
            held
        };
        let dragged = match grabbed {
            Some(i) => if interact && i < s.num_active_points {
                Some(i)
            } else {
                None
            },
            None => None,
        };
        (
            PointSelection { can_mouse_interact: interact, clicked_idx: grabbed, ..s },
            PointsFrame { moves: true, dragged },
        )
    }
}

impl PointSelection {
    /// The selection state of a new field of `num_points` points, all active.
    pub fn new(num_points: usize) -> (s: Self)
        ensures
            s == (PointSelection {
                num_points,
                num_active_points: num_points,
                can_mouse_interact: true,
                points_overriden: false,
                clicked_idx: None,
            }),
    {
        PointSelection {
            num_points,
            num_active_points: num_points,
            can_mouse_interact: true,
            points_overriden: false,
            clicked_idx: None,
        }
    }

    /// The same state with `num_points` active points, at most the number of
    /// points.
    pub fn with_num_active_points(self, num_points: usize) -> (s: Self)
        ensures
            s == (PointSelection {
                num_active_points: if num_points < self.num_points {
                    num_points
                } else {
                    self.num_points
                },
                ..self
            }),
    {
        let mut s = self;
        s.set_num_active_points(num_points);
        s
    }

    /// Sets the number of active points, at most the number of points.
    pub fn set_num_active_points(&mut self, num_points: usize)
        ensures
            *final(self) == (PointSelection {
                num_active_points: if num_points < old(self).num_points {
                    num_points
                } else {
                    old(self).num_points
                },
                ..*old(self)
            }),
    {
        self.num_active_points = if num_points < self.num_points {
            num_points
        } else {
            self.num_points
        };
    }

    /// Marks the active points as overridden by the caller, so that they do
    /// not move in the next frame; returns how many points are active.
    pub fn override_points(&mut self) -> (n: usize)
        ensures
            *final(self) == (PointSelection { points_overriden: true, ..*old(self) }),
            n == old(self).num_active_points,
    {
        self.points_overriden = true;
        self.num_active_points
    }

    /// Runs one frame of the field's mouse logic.
    pub fn update(&mut self, input: &PointsInput) -> (frame: PointsFrame)
        requires
            input.mouse_on_points@.len() == old(self).num_active_points,
        ensures
            (*final(self), frame) == points_step(*old(self), *input),
    {
        if self.points_overriden {
            self.points_overriden = false;
            return PointsFrame { moves: false, dragged: None };
        }
        let clicked = input.is_left_clicked;
        if !clicked {
            self.clicked_idx = None;
            if input.mouse_in_rect {
                self.can_mouse_interact = true;
            }
        } else if !input.mouse_in_rect && self.clicked_idx.is_none() {
            self.can_mouse_interact = false;
        }
        let ghost on = input.mouse_on_points@;
        let n = self.num_active_points;
        let mut dragged: Option<usize> = None;
        let mut i: usize = 0;
        let ghost held = self.clicked_idx;
        let ghost before = *self;
        while i < n
            invariant
                self.num_points == before.num_points,
                self.can_mouse_interact == before.can_mouse_interact,
                self.points_overriden == before.points_overriden,
                n == self.num_active_points,
                on == input.mouse_on_points@,
                on.len() == n,
                i <= n,
                clicked == input.is_left_clicked,
                held is None && clicked ==> (self.clicked_idx matches Some(k) ==> is_first_hit(
                    on,
                    k as int,
                ) && k < i),
                held is None && clicked && self.clicked_idx is None ==> forall|j: int|
                    0 <= j < i ==> !#[trigger] on[j],
                !(held is None && clicked) ==> self.clicked_idx == held,
                dragged == (match self.clicked_idx {
                    Some(k) => if self.can_mouse_interact && k < i {
                        Some(k)
                    } else {
                        None
                    },
                    None => None,
                }),
            decreases n - i,
        {
            if self.clicked_idx.is_none() && clicked && input.mouse_on_points[i] {
                self.clicked_idx = Some(i);
            }
            if let Some(idx) = self.clicked_idx {
                if idx == i && self.can_mouse_interact {
                    dragged = Some(i);
                }
            }
            i = i + 1;
        }
        proof {
            if held is None && clicked {
                if self.clicked_idx is Some {
                    let k = self.clicked_idx.unwrap() as int;
                    assert(is_first_hit(on, k));
                    let c = choose|c: int| is_first_hit(on, c);
                    assert(is_first_hit(on, c));
                    assert(on[c] && on[k]);
                    assert(c == k);
                } else {
                    assert forall|k: int| !is_first_hit(on, k) by {
                        if 0 <= k < on.len() {
                            assert(!on[k]);
                        }
                    }
                }
            }
        }
        PointsFrame { moves: true, dragged }
    }
}

/// The dragged point is always an active point, and a point is only dragged
/// while the button is held.
pub proof fn lemma_dragged_point_is_active(s: PointSelection, inp: PointsInput)
    ensures
        points_step(s, inp).1.dragged matches Some(i) ==> i < s.num_active_points
            && inp.is_left_clicked,
{
}

/// Once a point is grabbed, it stays grabbed while the button is held.
pub proof fn lemma_grab_is_kept(s: PointSelection, inp: PointsInput, k: usize)
    requires
        !s.points_overriden,
        s.clicked_idx == Some(k),
        inp.is_left_clicked,
    ensures
        points_step(s, inp).0.clicked_idx == Some(k),
{
}

/// Releasing the button lets go of the grabbed point, and releasing it inside
/// the field's rect gives the mouse back its hold on the points, whatever
/// happened before (a click outside the field takes it away only until then).
pub proof fn lemma_release_restores_interaction(s: PointSelection, inp: PointsInput)
    requires
        !s.points_overriden,
        !inp.is_left_clicked,
    ensures
        points_step(s, inp).0.clicked_idx is None,
        points_step(s, inp).1.dragged is None,
        points_step(s, inp).0.can_mouse_interact == (inp.mouse_in_rect || s.can_mouse_interact),
{
}

/// A press outside the field, with no point held, takes the mouse's hold on
/// the points away: nothing is dragged while it lasts.
pub proof fn lemma_press_outside_disables_interaction(s: PointSelection, inp: PointsInput)
    requires
        !s.points_overriden,
        inp.is_left_clicked,
        !inp.mouse_in_rect,
        s.clicked_idx is None,
    ensures
        !points_step(s, inp).0.can_mouse_interact,
        points_step(s, inp).1.dragged is None,
{
}

/// After the button is released inside the field, a press inside the field on
/// an active point drags the first point under the mouse.
pub proof fn lemma_press_after_release_drags_point(
    s: PointSelection,
    release: PointsInput,
    press: PointsInput,
    k: int,
)
    requires
        !s.points_overriden,
        !release.is_left_clicked,
        release.mouse_in_rect,
        press.is_left_clicked,
        press.mouse_in_rect,
        is_first_hit(press.mouse_on_points@, k),
        k < s.num_active_points,
    ensures
        points_step(points_step(s, release).0, press).1.dragged == Some(k as usize),
        points_step(points_step(s, release).0, press).0.clicked_idx == Some(k as usize),
{
    let on = press.mouse_on_points@;
    let c = choose|c: int| is_first_hit(on, c);
    assert(is_first_hit(on, c));
    if c < k {
        assert(on[c]);
    } else if c > k {
        assert(on[k]);
    }
}

/// Overriding the points freezes the field for exactly one frame.
pub proof fn lemma_override_freezes_one_frame(s: PointSelection, a: PointsInput, b: PointsInput)
    requires
        s.points_overriden,
    ensures
        !points_step(s, a).1.moves,
        points_step(s, a).1.dragged is None,
        points_step(points_step(s, a).0, b).1.moves,
{
}

} // verus!
