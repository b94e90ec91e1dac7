//! The errors of the render loop.

use vstd::prelude::*;

verus! {

/// Rendering was asked for before the render state was set up.
#[derive(Clone, Copy, Debug, PartialEq, Eq, Structural)]
pub struct RenderStateUnconfiguredError;

impl RenderStateUnconfiguredError {
    pub fn message(&self) -> (r: &'static str)
        ensures
            r@ == "Render state was not configured before rendering"@,
    {
        "Render state was not configured before rendering"
    }
}

/// The surface and the window had different sizes when a frame was drawn.
#[derive(Clone, Copy, Debug, PartialEq, Eq, Structural)]
pub struct SurfaceMissizedError;

impl SurfaceMissizedError {
    pub fn message(&self) -> (r: &'static str)
        ensures
            r@ == "Surface and window sizes differed when rendering"@,
    {
        "Surface and window sizes differed when rendering"
    }
}

/// The settings panel was drawn before it had produced its first frame.
#[derive(Clone, Copy, Debug, PartialEq, Eq, Structural)]
pub struct GUIUnconfiguredError;

impl GUIUnconfiguredError {
    pub fn message(&self) -> (r: &'static str)
        ensures
            r@ == "GUI was not configured before rendering"@,
    {
        "GUI was not configured before rendering"
    }
}

/// Why the next image of the presentation surface could not be had.
#[derive(Clone, Copy, Debug, PartialEq, Eq, Structural)]
pub enum SurfaceErrorKind {
    /// Acquiring the image took too long.
    Timeout,
    /// The surface no longer matches the display and must be configured anew.
    Outdated,
    /// The surface was lost and must be configured anew.
    Lost,
    /// There is no memory left for the image.
    OutOfMemory,
    /// Any other failure of the driver.
    Other,
}

/// A failure while drawing one frame.
#[derive(Clone, Copy, Debug, PartialEq, Eq, Structural)]
pub enum RenderError {
    Surface(SurfaceErrorKind),
    SurfaceMissized(SurfaceMissizedError),
    GUIUnconfigured(GUIUnconfiguredError),
}

impl From<SurfaceErrorKind> for RenderError {
    fn from(error: SurfaceErrorKind) -> (r: RenderError) {
        RenderError::Surface(error)
    }
}

impl vstd::std_specs::convert::FromSpecImpl<SurfaceErrorKind> for RenderError {
    open spec fn obeys_from_spec() -> bool {
        true
    }

    open spec fn from_spec(error: SurfaceErrorKind) -> RenderError {
        RenderError::Surface(error)
    }
}

impl From<SurfaceMissizedError> for RenderError {
    fn from(error: SurfaceMissizedError) -> (r: RenderError) {
        RenderError::SurfaceMissized(error)
    }
}

impl vstd::std_specs::convert::FromSpecImpl<SurfaceMissizedError> for RenderError {
    open spec fn obeys_from_spec() -> bool {
        true
    }

    open spec fn from_spec(error: SurfaceMissizedError) -> RenderError {
        RenderError::SurfaceMissized(error)
    }
}

impl From<GUIUnconfiguredError> for RenderError {
    fn from(error: GUIUnconfiguredError) -> (r: RenderError) {
        RenderError::GUIUnconfigured(error)
    }
}

impl vstd::std_specs::convert::FromSpecImpl<GUIUnconfiguredError> for RenderError {
    open spec fn obeys_from_spec() -> bool {
        true
    }

    open spec fn from_spec(error: GUIUnconfiguredError) -> RenderError {
        RenderError::GUIUnconfigured(error)
    }
}

/// The step of start-up that failed. Each failure is fatal.
#[derive(Clone, Copy, Debug, PartialEq, Eq, Structural)]
pub enum RenderStateError {
    CreateSurface,
    RequestAdapter,
    RequestDevice,
}

} // verus!
