//! Colour gradients: sequences of colours drawn as vertical strips.
use vstd::prelude::*;

verus! {

/// An sRGBA colour with premultiplied alpha, one byte per channel.
#[derive(Clone, Copy, Debug, PartialEq, Eq, Hash, Structural)]
pub struct Color32 {
    pub r: u8,
    pub g: u8,
    pub b: u8,
    pub a: u8,
}

impl Color32 {
    /// A colour from premultiplied channel values.
    pub fn from_rgba_premultiplied(r: u8, g: u8, b: u8, a: u8) -> (c: Self)
        ensures
            c == (Color32 { r, g, b, a }),
    {
        Color32 { r, g, b, a }
    }

    /// An opaque colour.
    pub fn from_rgb(r: u8, g: u8, b: u8) -> (c: Self)
        ensures
            c == (Color32 { r, g, b, a: 255 }),
    {
        Color32 { r, g, b, a: 255 }
    }

    /// The channel value at `i`: red, green, blue, then alpha.
    pub open spec fn spec_channel(self, i: int) -> u8 {
        if i == 0 {
            self.r
        } else if i == 1 {
            self.g
        } else if i == 2 {
            self.b
        } else {
            self.a
        }
    }

    /// The channel value at `i`: red, green, blue, then alpha.
    pub fn channel(&self, i: usize) -> (v: u8)
        requires
            i < 4,
        ensures
            v == self.spec_channel(i as int),
    {
        if i == 0 {
            self.r
        } else if i == 1 {
            self.g
        } else if i == 2 {
            self.b
        } else {
            self.a
        }
    }

    /// The alpha channel.
    pub fn a(&self) -> (v: u8)
        ensures
            v == self.a,
    {
        self.a
    }
}

/// A simple colour gradient: the colours of its points, from top to bottom.
#[derive(Clone, Debug, PartialEq, Eq, Hash)]
pub struct Gradient {
    pub points: Vec<Color32>,
}

impl core::ops::Index<usize> for Gradient {
    type Output = Color32;

    /// The colour of point `index`.
    fn index(&self, index: usize) -> (c: &Color32)
        ensures
            *c == self.points@[index as int],
    {
        &self.points[index]
    }
}

impl vstd::std_specs::core::IndexSpecImpl<usize> for Gradient {
    open spec fn index_req(&self, index: &usize) -> bool {
        *index < self.points@.len()
    }
}

impl Gradient {
    /// A gradient of two points of the same colour.
    pub fn one_color(srgba: Color32) -> (g: Self)
        ensures
            g.points@ == seq![srgba, srgba],
    {
        Gradient { points: vec![srgba, srgba] }
    }

    /// A gradient of two points: `start` then `end`.
    pub fn endpoints(start: Color32, end: Color32) -> (g: Self)
        ensures
            g.points@ == seq![start, end],
    {
        Gradient { points: vec![start, end] }
    }

    /// The colours of the gradient, as a row of pixels.
    pub fn to_pixel_row(&self) -> (row: Vec<Color32>)
        ensures
            row@ == self.points@,
    {
        let row = self.points.clone();
        assert(row@ =~= self.points@);
        row
    }

    /// The number of points of the gradient.
    pub fn num_points(&self) -> (n: usize)
        ensures
            n == self.points@.len(),
    {
        self.points.len()
    }
}

/// For point `i` of a gradient of `num_points` points blended from
/// `num_colors` colours, the indices of the two colours it is blended from:
/// the colours are spread evenly, `num_points / num_colors` points each, and
/// the last colour is repeated past the end.
pub open spec fn color_segment(num_colors: int, num_points: int, i: int) -> (int, int) {
    let increment = num_points / num_colors;
    let lower = i / increment;
    (
        if lower < num_colors - 1 { lower } else { num_colors - 1 },
        if lower + 1 < num_colors - 1 { lower + 1 } else { num_colors - 1 },
    )
}

/// The pair of colour indices each point of a multi-colour gradient is
/// blended from (see [`color_segment`]).
pub fn color_segment_indices(num_colors: usize, num_points: usize) -> (v: Vec<(usize, usize)>)
    requires
        num_colors > 0,
        num_points == 0 || num_points >= num_colors,
    ensures
        v@.len() == num_points,
        forall|i: int|
            0 <= i < num_points ==> (#[trigger] v@[i]).0 == color_segment(
                num_colors as int,
                num_points as int,
                i,
            ).0 && v@[i].1 == color_segment(num_colors as int, num_points as int, i).1,
{
    let increment = num_points / num_colors;
    let mut v: Vec<(usize, usize)> = Vec::new();
    let mut i: usize = 0;
    if num_points > 0 {
        proof {
            vstd::arithmetic::div_mod::lemma_div_is_ordered(num_colors as int, num_points as int, num_colors as int);
            vstd::arithmetic::div_mod::lemma_div_by_self(num_colors as int);
        }
    }
    while i < num_points
        invariant
            num_colors > 0,
            num_points > 0 ==> increment > 0,
            increment == num_points / num_colors,
            i <= num_points,
            v@.len() == i,
            forall|j: int|
                0 <= j < i ==> (#[trigger] v@[j]).0 == color_segment(
                    num_colors as int,
                    num_points as int,
                    j,
                ).0 && v@[j].1 == color_segment(num_colors as int, num_points as int, j).1,
        decreases num_points - i,
    {
        let lower = i / increment;
        let lw = if lower < num_colors - 1 { lower } else { num_colors - 1 };
        let up = if lower + 1 < num_colors - 1 { lower + 1 } else { num_colors - 1 };
        v.push((lw, up));
        i = i + 1;
    }
    v
}

/// Each point is blended from a colour and the same or the next one, both
/// among the given colours.
pub proof fn lemma_color_segment_bounds(num_colors: int, num_points: int, i: int)
    requires
        num_colors > 0,
        num_points >= num_colors,
        0 <= i < num_points,
    ensures
        0 <= color_segment(num_colors, num_points, i).0 <= color_segment(num_colors, num_points, i).1,
        color_segment(num_colors, num_points, i).1 <= color_segment(num_colors, num_points, i).0 + 1,
        color_segment(num_colors, num_points, i).1 < num_colors,
{
    vstd::arithmetic::div_mod::lemma_div_is_ordered(num_colors, num_points, num_colors);
    vstd::arithmetic::div_mod::lemma_div_by_self(num_colors);
    vstd::arithmetic::div_mod::lemma_div_pos_is_pos(i, num_points / num_colors);
}

/// How the colours are laid out over the points: with `inc` the number of
/// points per colour (`num_points / num_colors`), point `i` is blended from
/// colour `k` where `k * inc <= i < (k + 1) * inc`, towards colour `k + 1`;
/// the points from `(num_colors - 1) * inc` on all show the last colour.
pub proof fn lemma_color_segment_layout(num_colors: int, num_points: int, i: int)
    requires
        num_colors > 0,
        num_points >= num_colors,
        0 <= i < num_points,
    ensures
        ({
            let inc = num_points / num_colors;
            let (lw, up) = color_segment(num_colors, num_points, i);
            &&& lw * inc <= i
            &&& lw < num_colors - 1 ==> i < (lw + 1) * inc && up == lw + 1
            &&& lw == num_colors - 1 ==> up == lw
        }),
{
    let inc = num_points / num_colors;
    vstd::arithmetic::div_mod::lemma_div_is_ordered(num_colors, num_points, num_colors);
    vstd::arithmetic::div_mod::lemma_div_by_self(num_colors);
    let lower = i / inc;
    vstd::arithmetic::div_mod::lemma_fundamental_div_mod(i, inc);
    vstd::arithmetic::div_mod::lemma_mod_bound(i, inc);
    vstd::arithmetic::div_mod::lemma_div_pos_is_pos(i, inc);
    assert(lower * inc <= i < (lower + 1) * inc) by (nonlinear_arith)
        requires
            inc > 0,
            i == inc * lower + i % inc,
            0 <= i % inc < inc,
    ;
    if lower >= num_colors - 1 {
        assert((num_colors - 1) * inc <= lower * inc) by (nonlinear_arith)
            requires
                inc > 0,
                lower >= num_colors - 1,
        ;
    }
}

/// The two triangles of each quad of a vertical strip mesh with `num_points`
/// rows of two vertices each (left then right): quad `k` spans rows `k` and
/// `k + 1`, and is drawn as triangles `2k` and `2k + 1`. Triangle `j` joins
/// the vertices `j`, `j + 1` and `j + 2`.
pub fn strip_triangles(num_points: usize) -> (t: Vec<(u32, u32, u32)>)
    requires
        num_points >= 2,
        2 * num_points - 1 <= u32::MAX,
    ensures
        t@.len() == 2 * (num_points - 1),
        forall|j: int|
            0 <= j < t@.len() ==> #[trigger] t@[j] == (j as u32, (j + 1) as u32, (j + 2) as u32),
        forall|j: int| 0 <= j < t@.len() ==> (#[trigger] t@[j]).2 < 2 * num_points,
{
    let mut t: Vec<(u32, u32, u32)> = Vec::new();
    let mut i: usize = 0;
    while i < num_points - 1
        invariant
            num_points >= 2,
            2 * num_points - 1 <= u32::MAX,
            i <= num_points - 1,
            t@.len() == 2 * i,
            forall|j: int|
                0 <= j < t@.len() ==> #[trigger] t@[j] == (j as u32, (j + 1) as u32, (j + 2) as u32),
        decreases num_points - 1 - i,
    {
        let j = i as u32;
        t.push((2 * j, 2 * j + 1, 2 * j + 2));
        t.push((2 * j + 1, 2 * j + 2, 2 * j + 3));
        i = i + 1;
    }
    t
}

} // verus!
