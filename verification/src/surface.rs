//! The presentable surface's configuration, and the per-frame policy for
//! acquire failures.  The host owns the real device, surface and swap
//! images; this module decides what configuration they must carry and how
//! the render loop reacts when acquiring the next image fails.

use vstd::prelude::*;

verus! {

/// The configuration of the presentable surface: its physical size in
/// pixels.  The host must reconfigure its swap surface to this whenever it
/// changes, before the next draw.
#[derive(Debug, Clone, Copy, PartialEq, Eq, Structural)]
pub struct SurfaceState {
    pub width: u32,
    pub height: u32,
}

/// The configuration after a resize: exactly the new dimensions, with no
/// dependence on the old state.
pub open spec fn resized(state: SurfaceState, width: u32, height: u32) -> SurfaceState {
    SurfaceState { width, height }
}

impl SurfaceState {
    pub fn new(width: u32, height: u32) -> (s: Self)
        ensures
            s.width == width,
            s.height == height,
    {
        SurfaceState { width, height }
    }

    /// Adopts the new dimensions.  The host must rebuild its swap surface
    /// to match before the next frame.
    pub fn resize(&mut self, width: u32, height: u32)
        ensures
            *final(self) == resized(*old(self), width, height),
    {
        self.width = width;
        self.height = height;
    }
}

/// Resizing is idempotent: resizing twice to the same dimensions lands in
/// the same configuration as resizing once, so the surface stays drawable
/// and no reconfiguration is ever owed after the first.
pub proof fn lemma_resize_idempotent(state: SurfaceState, width: u32, height: u32)
    ensures
        resized(resized(state, width, height), width, height) == resized(state, width, height),
{
}

/// Why acquiring the next presentable image failed.
#[derive(Debug, Clone, Copy, PartialEq, Eq, Structural)]
pub enum SurfaceError {
    Lost,
    Outdated,
    Timeout,
    OutOfMemory,
    Other,
}

/// What the render loop must do after a failed acquire.
#[derive(Debug, Clone, Copy, PartialEq, Eq, Structural)]
pub enum FrameAction {
    RebuildSurface,
    SkipFrame,
    Exit,
}

/// The acquire-failure policy: a lost surface is rebuilt and the frame
/// retried; running out of memory is fatal; every other error is transient
/// and resolves itself by the next frame.
pub open spec fn acquire_policy(error: SurfaceError) -> FrameAction {
    match error {
        SurfaceError::Lost => FrameAction::RebuildSurface,
        SurfaceError::OutOfMemory => FrameAction::Exit,
        SurfaceError::Outdated => FrameAction::SkipFrame,
        SurfaceError::Timeout => FrameAction::SkipFrame,
        SurfaceError::Other => FrameAction::SkipFrame,
    }
}

/// Decides the render loop's reaction to a failed acquire.
pub fn handle_acquire_error(error: SurfaceError) -> (action: FrameAction)
    ensures
        action == acquire_policy(error),
{
    match error {
        SurfaceError::Lost => FrameAction::RebuildSurface,
        SurfaceError::OutOfMemory => FrameAction::Exit,
        SurfaceError::Outdated => FrameAction::SkipFrame,
        SurfaceError::Timeout => FrameAction::SkipFrame,
        SurfaceError::Other => FrameAction::SkipFrame,
    }
}

} // verus!
