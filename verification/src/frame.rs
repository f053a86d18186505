use vstd::prelude::*;

use crate::surface::SurfaceConfiguration;
use crate::surface::SurfaceCtx;
use crate::window::WindowCtx;

verus! {

/// Classified outcome of acquiring the next presentable image, mirroring
/// the presentation layer's error classes.
#[derive(Clone, Copy, Debug, PartialEq, Eq, Structural)]
pub enum SurfaceError {
    Timeout,
    Outdated,
    Lost,
    OutOfMemory,
    Other,
}

/// The two error classes from which a frame recovers by reconfiguring
/// the surface; every other class is reported and the frame skipped.
pub open spec fn recoverable(e: SurfaceError) -> bool {
    e is Lost || e is Outdated
}

/// What a redraw request asks the caller to do first.
#[derive(Clone, Copy, Debug, PartialEq, Eq, Structural)]
pub enum FrameStep {
    /// The surface is unconfigured: draw nothing, acquire nothing,
    /// report success.
    Skip,
    /// Acquire the next presentable image, render the pass, submit once
    /// and present once.
    Acquire,
}

/// Orchestrates one frame: decides whether an image may be acquired, and
/// recovers from the recoverable acquisition failures.
pub struct FrameCtx {}

impl FrameCtx {
    /// What `begin` answers for a given surface state.
    pub open spec fn spec_begin(surface_ctx: SurfaceCtx) -> FrameStep {
        if surface_ctx.spec_is_configured() {
            FrameStep::Acquire
        } else {
            FrameStep::Skip
        }
    }

    /// The guard of the per-frame protocol: a frame may be drawn exactly
    /// while the surface is configured. Takes the surface read-only, so
    /// a skipped frame changes nothing.
    pub fn begin(surface_ctx: &SurfaceCtx) -> (r: FrameStep)
        ensures
            r == Self::spec_begin(*surface_ctx),
            r is Acquire <==> surface_ctx.spec_is_configured(),
    {
        if surface_ctx.is_configured() {
            FrameStep::Acquire
        } else {
            FrameStep::Skip
        }
    }

    /// Decides what a failed acquisition means. `Lost` and `Outdated`
    /// are recovered locally: the surface is resized to the window's
    /// current cached size (re-running the zero-size guard) and the
    /// frame is retried on the next redraw; the returned command is the
    /// reconfiguration to issue, if any. Every other failure leaves the
    /// surface untouched and is handed back for reporting; `r.0` says
    /// whether the error was recovered.
    pub fn recover<W>(
        window_ctx: &WindowCtx<W>,
        surface_ctx: &mut SurfaceCtx,
        error: SurfaceError,
    ) -> (r: (bool, Option<SurfaceConfiguration>))
        ensures
            r.0 == recoverable(error),
            recoverable(error) ==> *final(surface_ctx) == old(surface_ctx).spec_resize(
                window_ctx.width,
                window_ctx.height,
            ) && r.1 == final(surface_ctx).config,
            !recoverable(error) ==> *final(surface_ctx) == *old(surface_ctx) && r.1 is None,
    {
        match error {
            SurfaceError::Lost | SurfaceError::Outdated => {
                let (width, height) = window_ctx.size();
                let command = surface_ctx.resize(width, height);
                (true, command)
            },
            _ => (false, None),
        }
    }
}

/// Recovery restores the configuration: after `Lost` or `Outdated` with
/// the window at a non-zero size `(w, h)`, the surface is configured at
/// exactly `(w, h)` again, and its format, present mode and alpha mode
/// are those it had before.
pub proof fn lemma_recovery_restores_configuration(
    s: SurfaceCtx,
    w: u32,
    h: u32,
    e: SurfaceError,
)
    requires
        recoverable(e),
        !crate::surface::degenerate(w, h),
    ensures
        ({
            let s2 = s.spec_resize(w, h);
            &&& s2.spec_is_configured()
            &&& s2.config == Some(s.spec_config_for(w, h))
            &&& s2.format == s.format
            &&& s2.present_mode == s.present_mode
            &&& s2.alpha_mode == s.alpha_mode
        }),
{
}

/// No draw on an unconfigured surface: `begin` answers `Skip`,
/// under which the caller acquires nothing and submits nothing.
pub proof fn lemma_no_draw_when_unconfigured(s: SurfaceCtx)
    requires
        !s.spec_is_configured(),
    ensures
        FrameCtx::spec_begin(s) is Skip,
{
}

} // verus!
