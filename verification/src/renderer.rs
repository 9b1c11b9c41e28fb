//! The surface-facing half of an output: its configured size and format,
//! and the recovery protocol for a presentation surface that invalidates
//! asynchronously.  A failed acquire is answered by one reconfigure and one
//! retry; only a second consecutive failure surfaces as a frame error.

use vstd::prelude::*;
use crate::common::TextureFormat;
use crate::numeric::div_bits;
use crate::numeric::f_div;
use crate::numeric::f_of_u32;
use crate::numeric::float_of_u32;

verus! {

/// Configuration of an output's presentation surface.
#[derive(Debug, Clone, Copy, PartialEq, Eq, Structural)]
pub struct Renderer {
    pub width: u32,
    pub height: u32,
    pub format: TextureFormat,
}

impl Renderer {
    pub fn new(width: u32, height: u32, format: TextureFormat) -> (r: Renderer)
        ensures
            r == (Renderer { width, height, format }),
    {
        Renderer { width, height, format }
    }

    /// Reconfigure to the new size; a zero dimension is ignored.
    pub fn resize(&mut self, width: u32, height: u32)
        ensures
            width > 0 && height > 0 ==> *final(self) == (Renderer {
                width,
                height,
                format: old(self).format,
            }),
            !(width > 0 && height > 0) ==> *final(self) == *old(self),
    {
        if width > 0 && height > 0 {
            self.width = width;
            self.height = height;
        }
    }

    pub fn surface_format(&self) -> (f: TextureFormat)
        ensures
            f == self.format,
    {
        self.format
    }

    /// Width over height.
    pub fn aspect_ratio(&self) -> (r: u32)
        ensures
            r == div_bits(float_of_u32(self.width), float_of_u32(self.height)),
    {
        f_div(f_of_u32(self.width), f_of_u32(self.height))
    }
}

/// Why acquiring the next presentable image failed.
#[derive(Debug, Clone, Copy, PartialEq, Eq, Structural)]
pub enum SurfaceErrorKind {
    /// The surface no longer matches the window (resized or changed).
    Outdated,
    /// The surface was lost and must be reconfigured.
    Lost,
    /// Acquiring timed out.
    Timeout,
    /// The device is out of memory.
    OutOfMemory,
    /// Any other failure.
    Other,
}

/// What one acquire attempt returned.
#[derive(Debug, Clone, Copy, PartialEq, Eq, Structural)]
pub enum AcquireOutcome {
    Acquired,
    Failed(SurfaceErrorKind),
}

/// What the output does next after an acquire attempt.
#[derive(Debug, Clone, Copy, PartialEq, Eq, Structural)]
pub enum AcquireStep {
    /// Draw into the acquired image and present it.
    Present,
    /// Reconfigure the surface at the last known size, then retry once.
    ReconfigureAndRetry,
    /// Surface the error for this frame; the next frame is attempted
    /// normally.
    GiveUp(SurfaceErrorKind),
}

/// A transient invalidation, recoverable by reconfiguring: the surface is
/// outdated or lost, or the acquire timed out.
pub open spec fn recoverable(e: SurfaceErrorKind) -> bool {
    e is Outdated || e is Lost || e is Timeout
}

/// The step after the frame's first acquire attempt.
pub open spec fn first_acquire_step_spec(outcome: AcquireOutcome) -> AcquireStep {
    match outcome {
        AcquireOutcome::Acquired => AcquireStep::Present,
        AcquireOutcome::Failed(e) => if recoverable(e) {
            AcquireStep::ReconfigureAndRetry
        } else {
            AcquireStep::GiveUp(e)
        },
    }
}

/// The step after the retry that follows a reconfiguration: a second
/// consecutive failure is surfaced, whatever its kind.
pub open spec fn retry_acquire_step_spec(outcome: AcquireOutcome) -> AcquireStep {
    match outcome {
        AcquireOutcome::Acquired => AcquireStep::Present,
        AcquireOutcome::Failed(e) => AcquireStep::GiveUp(e),
    }
}

/// Decide the step after the first acquire attempt of a frame.
pub fn first_acquire_step(outcome: &AcquireOutcome) -> (s: AcquireStep)
    ensures
        s == first_acquire_step_spec(*outcome),
{
    match outcome {
        AcquireOutcome::Acquired => AcquireStep::Present,
        AcquireOutcome::Failed(e) => {
            let rec = match e {
                SurfaceErrorKind::Outdated => true,
                SurfaceErrorKind::Lost => true,
                SurfaceErrorKind::Timeout => true,
                SurfaceErrorKind::OutOfMemory => false,
                SurfaceErrorKind::Other => false,
            };
            if rec {
                AcquireStep::ReconfigureAndRetry
            } else {
                AcquireStep::GiveUp(*e)
            }
        },
    }
}

/// Decide the step after the single retry.
pub fn retry_acquire_step(outcome: &AcquireOutcome) -> (s: AcquireStep)
    ensures
        s == retry_acquire_step_spec(*outcome),
{
    match outcome {
        AcquireOutcome::Acquired => AcquireStep::Present,
        AcquireOutcome::Failed(e) => AcquireStep::GiveUp(*e),
    }
}

/// Law: an outdated surface on one frame, followed by a successful acquire
/// after the reconfiguration, presents that frame — the caller observes no
/// error, and exactly one retry was used.
pub proof fn lemma_outdated_surface_recovers()
    ensures
        first_acquire_step_spec(AcquireOutcome::Failed(SurfaceErrorKind::Outdated))
            == AcquireStep::ReconfigureAndRetry,
        retry_acquire_step_spec(AcquireOutcome::Acquired) == AcquireStep::Present,
{
}

/// Law: a recoverable failure never surfaces from the first attempt, and a
/// second consecutive failure always surfaces.
pub proof fn lemma_one_retry_policy(first: SurfaceErrorKind, second: SurfaceErrorKind)
    requires
        recoverable(first),
    ensures
        first_acquire_step_spec(AcquireOutcome::Failed(first))
            == AcquireStep::ReconfigureAndRetry,
        retry_acquire_step_spec(AcquireOutcome::Failed(second)) == AcquireStep::GiveUp(second),
{
}

} // verus!
