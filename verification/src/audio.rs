//! Interleaving of a decoded audio stream into stereo for panning: which
//! input sample each output sample repeats, and on which side it plays.
use vstd::prelude::*;

verus! {

/// The side an output sample plays on.
#[derive(PartialEq, Eq, Structural, Clone, Copy, Debug)]
pub enum Side {
    Left,
    Right,
}

/// Where the interleaving stands: whether the next output is a left
/// sample, and the last mono sample (played again on the right).
#[derive(PartialEq, Eq, Structural, Clone, Copy, Debug)]
pub struct PanState {
    pub left: bool,
    pub mono_repeat: i16,
}

/// Whether the next output sample takes a new sample from the input: every
/// one does for a stereo input, only the left ones for a mono input.
pub open spec fn pan_needs_input(s: PanState, channels: u16) -> bool {
    channels != 1 || s.left
}

/// One step of the interleaving: the next state and the output sample with
/// its side; the state stays and nothing comes out when the input needed
/// is exhausted.
pub open spec fn pan_step(s: PanState, channels: u16, sample: Option<i16>) -> (PanState, Option<(i16, Side)>) {
    if pan_needs_input(s, channels) {
        match sample {
            None => (s, None),
            Some(x) => if s.left {
                (
                    PanState { left: false, mono_repeat: if channels == 1 { x } else { s.mono_repeat } },
                    Some((x, Side::Left)),
                )
            } else {
                (PanState { left: true, mono_repeat: s.mono_repeat }, Some((x, Side::Right)))
            },
        }
    } else {
        (PanState { left: true, mono_repeat: s.mono_repeat }, Some((s.mono_repeat, Side::Right)))
    }
}

impl PanState {
    /// The start of a stream: a left sample comes first.
    pub fn new() -> (s: PanState)
        ensures
            s.left,
            s.mono_repeat == 0,
    {
        PanState { left: true, mono_repeat: 0 }
    }

    /// Whether the next output sample takes a new sample from the input.
    pub fn needs_input(&self, channels: u16) -> (b: bool)
        ensures
            b == pan_needs_input(*self, channels),
    {
        channels != 1 || self.left
    }

    /// The next output sample and its side, from the input's next sample
    /// where one is needed (`sample` is not read where none is).
    pub fn emit(&mut self, channels: u16, sample: Option<i16>) -> (out: Option<(i16, Side)>)
        ensures
            (*final(self), out) == pan_step(*old(self), channels, sample),
    {
        if channels == 1 {
            if self.left {
                match sample {
                    None => None,
                    Some(x) => {
                        self.left = false;
                        self.mono_repeat = x;
                        Some((x, Side::Left))
                    },
                }
            } else {
                self.left = true;
                Some((self.mono_repeat, Side::Right))
            }
        } else {
            match sample {
                None => None,
                Some(x) => {
                    if self.left {
                        self.left = false;
                        Some((x, Side::Left))
                    } else {
                        self.left = true;
                        Some((x, Side::Right))
                    }
                },
            }
        }
    }
}

/// A mono sample plays twice, first on the left, then on the right, and the
/// stream is then ready for the next sample.
pub proof fn lemma_mono_sample_plays_on_both_sides(s: PanState, x: i16)
    requires
        s.left,
    ensures
        pan_step(s, 1, Some(x)).1 == Some((x, Side::Left)),
        !pan_needs_input(pan_step(s, 1, Some(x)).0, 1),
        pan_step(pan_step(s, 1, Some(x)).0, 1, None).1 == Some((x, Side::Right)),
        pan_step(pan_step(s, 1, Some(x)).0, 1, None).0.left,
{
}

/// In a stream of any channel count, output sides alternate: a sample that
/// comes out flips the side of the next one.
pub proof fn lemma_sides_alternate(s: PanState, channels: u16, sample: Option<i16>)
    ensures
        pan_step(s, channels, sample).1 matches Some((_, side)) ==> {
            &&& (side == Side::Left) == s.left
            &&& pan_step(s, channels, sample).0.left == !s.left
        },
        pan_step(s, channels, sample).1 is None ==> pan_step(s, channels, sample).0 == s,
{
}

/// A stereo stream passes every input sample through, in order.
pub proof fn lemma_stereo_passes_samples(s: PanState, channels: u16, x: i16)
    requires
        channels != 1,
    ensures
        pan_needs_input(s, channels),
        pan_step(s, channels, Some(x)).1 matches Some((y, _)) && y == x,
{
}

} // verus!
