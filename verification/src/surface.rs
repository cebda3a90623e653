use vstd::prelude::*;

verus! {

/// Side of the square window at start, in logical pixels.
pub const INITIAL_WINDOW_SIDE: u32 = 512;

/// A size in physical pixels, as the window system reports it.
#[derive(Clone, Copy, Debug, PartialEq, Eq, Structural)]
pub struct Size {
    pub width: u32,
    pub height: u32,
}

impl Size {
    /// Whether a surface can be configured at this size: neither side is zero.
    pub open spec fn spec_is_presentable(self) -> bool {
        self.width > 0 && self.height > 0
    }

    #[verifier::when_used_as_spec(spec_is_presentable)]
    pub fn is_presentable(self) -> (presentable: bool)
        ensures
            presentable == self.spec_is_presentable(),
    {
        self.width > 0 && self.height > 0
    }
}

/// The part of the presentation surface's configuration that follows the
/// window: its extent in pixels.
#[derive(Clone, Copy, Debug, PartialEq, Eq, Structural)]
pub struct SurfaceConfig {
    pub width: u32,
    pub height: u32,
}

impl SurfaceConfig {
    /// The configuration that presents at `size`.
    pub open spec fn spec_for_size(size: Size) -> SurfaceConfig {
        SurfaceConfig { width: size.width, height: size.height }
    }

    #[verifier::when_used_as_spec(spec_for_size)]
    pub fn for_size(size: Size) -> (config: SurfaceConfig)
        ensures
            config == Self::spec_for_size(size),
    {
        SurfaceConfig { width: size.width, height: size.height }
    }
}

/// Why the next presentable image could not be acquired.
#[derive(Clone, Copy, Debug, PartialEq, Eq, Structural)]
pub enum SurfaceError {
    /// Acquisition timed out.
    Timeout,
    /// The surface changed under the swap chain.
    Outdated,
    /// The swap chain is lost and must be recreated.
    Lost,
    /// No memory is left for a new frame.
    OutOfMemory,
}

} // verus!
