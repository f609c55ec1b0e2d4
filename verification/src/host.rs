//! Host-side bookkeeping that is worth stating exactly: how the stored
//! surface size reacts to a resize event, how a failed frame is recovered,
//! and how the aspect ratio is derived from a pixel size.

use vstd::prelude::*;
use crate::fixed::{div_tr, SCALE};

verus! {

/// The pixel size of the presentation surface.
#[derive(Clone, Copy, Debug, PartialEq, Eq, Structural)]
pub struct SurfaceSize {
    pub width: u32,
    pub height: u32,
}

/// Ways in which presenting one frame can fail.
#[derive(Clone, Copy, Debug, PartialEq, Eq, Structural)]
pub enum RenderFailure {
    /// The surface was lost and must be rebuilt.
    Lost,
    /// The surface no longer matches the window and must be rebuilt.
    Outdated,
    /// The device is out of memory.
    OutOfMemory,
    /// Acquiring the next frame took too long.
    Timeout,
}

/// What the host does after a failed frame.
#[derive(Clone, Copy, Debug, PartialEq, Eq, Structural)]
pub enum RecoveryAction {
    /// Reconfigure the surface with the last known size and carry on.
    ReconfigureSurface,
    /// Fatal: shut the application down.
    Terminate,
    /// Skip this frame and carry on.
    SkipFrame,
}

/// The recovery rule: a lost or outdated surface is reconfigured, memory
/// exhaustion is fatal, and a timeout only skips the frame.
pub open spec fn spec_recovery(f: RenderFailure) -> RecoveryAction {
    match f {
        RenderFailure::Lost => RecoveryAction::ReconfigureSurface,
        RenderFailure::Outdated => RecoveryAction::ReconfigureSurface,
        RenderFailure::OutOfMemory => RecoveryAction::Terminate,
        RenderFailure::Timeout => RecoveryAction::SkipFrame,
    }
}

/// Decides how to recover from a failed frame.
pub fn recovery_action(f: &RenderFailure) -> (r: RecoveryAction)
    ensures
        r == spec_recovery(*f),
{
    match *f {
        RenderFailure::Lost => RecoveryAction::ReconfigureSurface,
        RenderFailure::Outdated => RecoveryAction::ReconfigureSurface,
        RenderFailure::OutOfMemory => RecoveryAction::Terminate,
        RenderFailure::Timeout => RecoveryAction::SkipFrame,
    }
}

impl SurfaceSize {
    /// Applies a resize event.  A size with a zero width or height (for
    /// example a minimised window) is ignored: the stored size is left
    /// unchanged and the surface must not be reconfigured.  Returns whether
    /// the size was accepted.
    pub fn apply_resize(&mut self, width: u32, height: u32) -> (r: bool)
        ensures
            r == (width > 0 && height > 0),
            r ==> *final(self) == (SurfaceSize { width, height }),
            !r ==> *final(self) == *old(self),
    {
        if width > 0 && height > 0 {
            self.width = width;
            self.height = height;
            true
        } else {
            false
        }
    }
}

/// Picks the surface format: the first format flagged as sRGB, or the
/// first format offered when none is.  The argument holds, per offered
/// format, whether it is an sRGB format.
pub fn preferred_format_index(srgb: &Vec<bool>) -> (r: usize)
    requires
        srgb@.len() >= 1,
    ensures
        r < srgb@.len(),
        (exists|i: int| 0 <= i < srgb@.len() && #[trigger] srgb@[i]) ==> srgb@[r as int]
            && (forall|j: int| 0 <= j < r ==> !(#[trigger] srgb@[j])),
        !(exists|i: int| 0 <= i < srgb@.len() && #[trigger] srgb@[i]) ==> r == 0,
{
    let mut i: usize = 0;
    while i < srgb.len()
        invariant
            i <= srgb@.len(),
            srgb@.len() >= 1,
            forall|j: int| 0 <= j < i ==> !(#[trigger] srgb@[j]),
        decreases srgb@.len() - i,
    {
        if srgb[i] {
            return i;
        }
        i += 1;
    }
    0
}

/// The aspect ratio `width / height` as a fixed-point value.
pub fn aspect_ratio(width: u32, height: u32) -> (r: i64)
    requires
        height >= 1,
    ensures
        r == div_tr(width as int * SCALE as int, height as int),
        0 <= r <= 0x1_0000_0000_0000,
{
    proof {
        crate::fixed::lemma_mul_bounds(width as int, SCALE as int, 0x1_0000_0000, SCALE as int);
        crate::fixed::lemma_div_tr_bounds(
            width as int * SCALE as int,
            height as int,
            0x1_0000_0000int * SCALE as int,
        );
        vstd::arithmetic::div_mod::lemma_div_nonincreasing(
            0x1_0000_0000int * SCALE as int,
            height as int,
        );
        assert(0x1_0000_0000int * (SCALE as int) == 0x1_0000_0000_0000int);
    }
    let w: u64 = (width as u64) * 65536;
    let q: u64 = w / (height as u64);
    q as i64
}

} // verus!
