//! The presentable-surface configuration and its lifecycle.
//!
//! The surface holds the configured output size; a depth resource must match
//! that size whenever a frame is rendered. Resizing clamps each dimension to
//! at least one, reconfigures, and recreates the depth resource in the same
//! step; recovering from a lost surface re-applies the current size.

use vstd::prelude::*;

verus! {

/// A configured output size, both dimensions at least one.
#[derive(Clone, Copy, PartialEq, Eq, Structural, Debug)]
pub struct SurfaceConfig {
    pub width: u32,
    pub height: u32,
}

/// The size a resize request ends at: each dimension clamped to at least 1.
pub open spec fn clamped(width: u32, height: u32) -> SurfaceConfig {
    (SurfaceConfig {
        width: if width == 0 { 1u32 } else { width },
        height: if height == 0 { 1u32 } else { height },
    })
}

/// The surface lifecycle state: the configured size, and the size the depth
/// resource was created at.
#[derive(Clone, Copy, PartialEq, Eq, Structural, Debug)]
pub struct SurfaceState {
    pub config: SurfaceConfig,
    pub depth_width: u32,
    pub depth_height: u32,
}

impl SurfaceState {
    /// The depth resource matches the configured size, and both dimensions
    /// are at least one.
    pub open spec fn wf(self) -> bool {
        &&& 1 <= self.config.width
        &&& 1 <= self.config.height
        &&& self.depth_width == self.config.width
        &&& self.depth_height == self.config.height
    }

    /// Configures the surface at the window's initial size (clamped) and
    /// creates the matching depth resource.
    pub fn new(width: u32, height: u32) -> (s: SurfaceState)
        ensures
            s.config == clamped(width, height),
            s.wf(),
    {
        let w: u32 = if width == 0 {
            1
        } else {
            width
        };
        let h: u32 = if height == 0 {
            1
        } else {
            height
        };
        SurfaceState { config: SurfaceConfig { width: w, height: h }, depth_width: w, depth_height: h }
    }

    /// Applies a resize: clamps the requested size, reconfigures, and
    /// recreates the depth resource at the new size. Requesting the same
    /// size twice yields the same configuration (idempotence).
    pub fn resize(&mut self, width: u32, height: u32)
        ensures
            final(self).config == clamped(width, height),
            final(self).wf(),
    {
        let w: u32 = if width == 0 {
            1
        } else {
            width
        };
        let h: u32 = if height == 0 {
            1
        } else {
            height
        };
        self.config = SurfaceConfig { width: w, height: h };
        self.depth_width = w;
        self.depth_height = h;
    }

    /// Recovers a lost surface by re-applying the configuration at the
    /// current dimensions; a well-formed state is left exactly as it was.
    pub fn recover_from_loss(&mut self)
        requires
            old(self).wf(),
        ensures
            *final(self) == *old(self),
            final(self).wf(),
    {
        let w: u32 = self.config.width;
        let h: u32 = self.config.height;
        self.resize(w, h);
    }
}

/// Resizing is idempotent: a second resize to the same requested size leaves
/// the configuration the first one produced.
pub proof fn lemma_resize_idempotent(width: u32, height: u32)
    ensures
        clamped(clamped(width, height).width, clamped(width, height).height)
            == clamped(width, height),
{
}

} // verus!
