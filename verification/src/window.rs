use std::sync::Arc;
use vstd::prelude::*;

verus! {

/// Shared handle to the platform window together with the last-known
/// logical size, in pixels.
///
/// A size with either dimension `0` is a valid transient state meaning
/// "not presentable", never an error. The handle is shared because both
/// the GPU layer and the presentation surface are built from it; the
/// window must outlive every context derived from it.
pub struct WindowCtx<W> {
    pub window: Arc<W>,
    pub width: u32,
    pub height: u32,
}

impl<W> WindowCtx<W> {
    pub fn new(window: Arc<W>, width: u32, height: u32) -> (r: Self)
        ensures
            r.window == window,
            r.width == width,
            r.height == height,
    {
        Self { window, width, height }
    }

    pub fn window(&self) -> (r: &Arc<W>)
        ensures
            *r == self.window,
    {
        &self.window
    }

    pub fn size(&self) -> (r: (u32, u32))
        ensures
            r.0 == self.width,
            r.1 == self.height,
    {
        (self.width, self.height)
    }

    /// Updates the cached size only; it never touches the GPU. A caller
    /// that needs the presentation surface to follow must propagate the
    /// new size to the surface context explicitly.
    pub fn resize(&mut self, width: u32, height: u32)
        ensures
            final(self).window == old(self).window,
            final(self).width == width,
            final(self).height == height,
    {
        self.width = width;
        self.height = height;
    }
}

} // verus!
