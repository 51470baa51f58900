//! A stereo pair of mono processors.
use vstd::prelude::*;

verus! {

/// A simple wrapper around two mono effects: `l` processes the left channel
/// and `r` the right one.
#[derive(Clone, Debug)]
pub struct StereoWrapper<E> {
    pub l: E,
    pub r: E,
}

impl<E: Clone> StereoWrapper<E> {
    /// A stereo pair made of a clone of `effect` (left) and `effect` itself
    /// (right).
    pub fn from_single(effect: E) -> (w: Self)
        ensures
            cloned::<E>(effect, w.l),
            w.r == effect,
    {
        Self { l: effect.clone(), r: effect }
    }

    /// A stereo pair of two effects.
    pub fn from_pair(effect_l: E, effect_r: E) -> (w: Self)
        ensures
            w.l == effect_l,
            w.r == effect_r,
    {
        Self { l: effect_l, r: effect_r }
    }

    /// The two effects, left then right.
    pub fn unwrap(self) -> (p: (E, E))
        ensures
            p == (self.l, self.r),
    {
        (self.l, self.r)
    }

    /// The effect that processes channel `ch_idx`: the left one for channel 0,
    /// the right one for channel 1, none for any other channel (which passes
    /// through unprocessed).
    pub fn channel_mut(&mut self, ch_idx: usize) -> (e: Option<&mut E>)
        ensures
            ch_idx == 0 ==> (e matches Some(x) && *x == old(self).l && final(self).l == *final(x)
                && final(self).r == old(self).r),
            ch_idx == 1 ==> (e matches Some(x) && *x == old(self).r && final(self).r == *final(x)
                && final(self).l == old(self).l),
            ch_idx > 1 ==> e is None && *final(self) == *old(self),
    {
        match ch_idx {
            0 => Some(&mut self.l),
            1 => Some(&mut self.r),
            _ => None,
        }
    }
}

} // verus!
