use vstd::prelude::*;

use crate::surface::SurfaceCtx;
use crate::surface::TextureFormat;

verus! {

/// The render pipeline's negotiated state: the colour-target format it
/// was compiled against. The pipeline depends on the surface's chosen
/// format and must be rebuilt if that format ever changes.
#[derive(Clone, Copy, Debug, PartialEq, Eq, Structural)]
pub struct PipelineCtx {
    pub format: TextureFormat,
}

impl PipelineCtx {
    /// The pipeline is valid for a surface exactly while its compiled
    /// colour-target format is the surface's chosen format.
    pub open spec fn matches_surface(self, surface_ctx: SurfaceCtx) -> bool {
        self.format == surface_ctx.format
    }

    /// Builds the pipeline state against the surface's chosen colour
    /// format.
    pub fn new(surface_ctx: &SurfaceCtx) -> (r: PipelineCtx)
        ensures
            r.format == surface_ctx.format,
            r.matches_surface(*surface_ctx),
    {
        PipelineCtx { format: surface_ctx.format }
    }
}

/// Resizing never changes the surface's chosen format, so a pipeline
/// built for a surface stays valid across every resize, degenerate or
/// not.
pub proof fn lemma_resize_preserves_pipeline(p: PipelineCtx, s: SurfaceCtx, w: u32, h: u32)
    requires
        p.matches_surface(s),
    ensures
        p.matches_surface(s.spec_resize(w, h)),
{
}

} // verus!
