//! Choosing the display mode in which the frame buffer is set up.

use vstd::prelude::*;
use crate::error::HandoffError;

verus! {

/// How a pixel is laid out in the frame buffer.
#[derive(Clone, Copy, Debug, PartialEq, Eq, Structural)]
pub enum PixelFormat {
    Rgb,
    Bgr,
    Bitmask,
    BltOnly,
}

/// One display mode that the graphics adapter offers.
#[derive(Clone, Copy, Debug, PartialEq, Eq, Structural)]
pub struct ModeInfo {
    /// The number of pixels in a line.
    pub width: usize,
    /// The number of lines.
    pub height: usize,
    pub pixel_format: PixelFormat,
    /// The number of pixels from the start of one line to the start of the next.
    pub stride: usize,
}

impl ModeInfo {
    /// The number of pixels on the screen.
    pub open spec fn area(self) -> nat {
        (self.width * self.height) as nat
    }

    /// The number of pixels on the screen. It is counted in 128 bits, which hold the
    /// product of any width and height.
    pub fn pixels(&self) -> (area: u128)
        ensures
            area == self.area(),
    {
        let width: u128 = self.width as u128;
        let height: u128 = self.height as u128;
        assert(width * height <= u128::MAX) by (nonlinear_arith)
            requires
                width <= 0xffff_ffff_ffff_ffff,
                height <= 0xffff_ffff_ffff_ffff,
        ;
        width * height
    }
}

/// Whether the mode at `index` is the one to choose: no mode has more pixels, and every
/// mode before it has fewer.
pub open spec fn is_first_largest(modes: Seq<ModeInfo>, index: int) -> bool {
    &&& 0 <= index < modes.len()
    &&& forall|i: int| 0 <= i < modes.len() ==> (#[trigger] modes[i]).area() <= modes[index].area()
    &&& forall|i: int| 0 <= i < index ==> (#[trigger] modes[i]).area() < modes[index].area()
}

/// Chooses the mode with the most pixels, the first of them where several have as many.
/// Fails only where there is no mode to choose from.
pub fn select_mode(modes: &[ModeInfo]) -> (chosen: Result<usize, HandoffError>)
    ensures
        modes@.len() == 0 ==> chosen == Err::<usize, HandoffError>(HandoffError::NoDisplayModes),
        modes@.len() > 0 ==> chosen is Ok && is_first_largest(modes@, chosen->Ok_0 as int),
{
    if modes.len() == 0 {
        return Err(HandoffError::NoDisplayModes);
    }
    let mut best: usize = 0;
    let mut best_area: u128 = modes[0].pixels();
    let mut i: usize = 1;
    while i < modes.len()
        invariant
            1 <= i <= modes@.len(),
            best < i,
            best_area == modes@[best as int].area(),
            is_first_largest(modes@.take(i as int), best as int),
        decreases modes@.len() - i,
    {
        let area = modes[i].pixels();
        if area > best_area {
            best = i;
            best_area = area;
        }
        i += 1;
    }
    assert(modes@.take(i as int) =~= modes@);
    Ok(best)
}

/// The frame buffer's display mode, once chosen.
#[derive(Clone, Copy, Debug)]
pub struct FrameBuffer {
    index: usize,
    mode: ModeInfo,
}

impl FrameBuffer {
    /// The place of the chosen mode among those that the adapter offers.
    pub closed spec fn spec_mode_index(&self) -> usize {
        self.index
    }

    /// The chosen mode.
    pub closed spec fn spec_mode(&self) -> ModeInfo {
        self.mode
    }

    /// Chooses, among the modes that the adapter offers, the one with the most pixels,
    /// the first of them where several have as many.
    pub fn init(modes: &[ModeInfo]) -> (frame_buffer: Result<FrameBuffer, HandoffError>)
        ensures
            modes@.len() == 0 ==> frame_buffer is Err && frame_buffer->Err_0
                == HandoffError::NoDisplayModes,
            modes@.len() > 0 ==> frame_buffer is Ok && is_first_largest(
                modes@,
                frame_buffer->Ok_0.spec_mode_index() as int,
            ) && frame_buffer->Ok_0.spec_mode() == modes@[frame_buffer->Ok_0.spec_mode_index() as int],
    {
        match select_mode(modes) {
            Ok(index) => Ok(FrameBuffer { index, mode: modes[index] }),
            Err(error) => Err(error),
        }
    }

    /// The place of the chosen mode among those that the adapter offers.
    #[verifier::when_used_as_spec(spec_mode_index)]
    pub fn mode_index(&self) -> (index: usize)
        ensures
            index == self.spec_mode_index(),
    {
        self.index
    }

    /// The chosen mode.
    #[verifier::when_used_as_spec(spec_mode)]
    pub fn mode(&self) -> (mode: ModeInfo)
        ensures
            mode == self.spec_mode(),
    {
        self.mode
    }
}

/// Only one mode can be the first of the largest.
pub proof fn lemma_first_largest_unique(modes: Seq<ModeInfo>, a: int, b: int)
    requires
        is_first_largest(modes, a),
        is_first_largest(modes, b),
    ensures
        a == b,
{
    if a < b {
        assert(modes[a].area() < modes[b].area());
        assert(modes[b].area() <= modes[a].area());
    } else if b < a {
        assert(modes[b].area() < modes[a].area());
        assert(modes[a].area() <= modes[b].area());
    }
}

} // verus!
