//! Renderers that draw a canvas. Rasterization has not been written yet:
//! a renderer only records that it is ready.

use vstd::prelude::*;

verus! {

/// The platform-agnostic renderer of the core engine.
pub struct Renderer {
    pub initialized: bool,
}

impl Renderer {
    /// A renderer that is ready to draw.
    pub fn new() -> (r: Renderer)
        ensures
            r.initialized,
    {
        Renderer { initialized: true }
    }

    /// Draws a frame; there is nothing to draw yet, so this always
    /// succeeds.
    pub fn render(&self) -> (r: Result<(), String>)
        ensures
            r is Ok,
    {
        Ok(())
    }

    /// Adapts to a new surface size; the renderer holds no size-dependent
    /// state, so nothing changes.
    pub fn resize(&mut self, width: u32, height: u32)
        ensures
            *final(self) == *old(self),
    {
    }
}

impl Default for Renderer {
    fn default() -> (r: Renderer)
        ensures
            r.initialized,
    {
        Renderer::new()
    }
}

/// The CPU rasterizing backend.
pub struct CpuRenderer {
    pub initialized: bool,
}

impl CpuRenderer {
    /// A CPU renderer that is ready to draw.
    pub fn new() -> (r: CpuRenderer)
        ensures
            r.initialized,
    {
        CpuRenderer { initialized: true }
    }
}

impl Default for CpuRenderer {
    fn default() -> (r: CpuRenderer)
        ensures
            r.initialized,
    {
        CpuRenderer::new()
    }
}

/// The default brush hook: it changes nothing about any dab, so every
/// dab keeps its preset's radius and colour and no extra dabs are added.
pub struct NoOpHook;

} // verus!
