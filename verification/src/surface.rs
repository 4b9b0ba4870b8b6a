//! How the render surface is configured from what the display offers:
//! the pixel format, the size and the alpha compositing mode.

use vstd::prelude::*;

verus! {

/// How the window compositor combines the surface's alpha channel with what
/// lies behind the window.
#[derive(Debug, Clone, Copy, PartialEq, Eq, Hash, Structural)]
pub enum CompositeAlphaMode {
    Auto,
    Opaque,
    PreMultiplied,
    PostMultiplied,
    Inherit,
}

/// The alpha mode picked among the supported ones: premultiplied when
/// offered (transparent windows composite without edge halos), else the
/// platform's automatic choice, else the first one offered.
pub open spec fn preferred_alpha_mode(modes: Seq<CompositeAlphaMode>) -> CompositeAlphaMode {
    if modes.contains(CompositeAlphaMode::PreMultiplied) {
        CompositeAlphaMode::PreMultiplied
    } else if modes.contains(CompositeAlphaMode::Auto) {
        CompositeAlphaMode::Auto
    } else {
        modes[0]
    }
}

fn offers(modes: &[CompositeAlphaMode], mode: CompositeAlphaMode) -> (found: bool)
    ensures
        found == modes@.contains(mode),
{
    let mut i: usize = 0;
    while i < modes.len()
        invariant
            i <= modes@.len(),
            forall|j: int| 0 <= j < i ==> modes@[j] != mode,
        decreases modes@.len() - i,
    {
        if modes[i] == mode {
            assert(modes@.contains(mode));
            return true;
        }
        i = i + 1;
    }
    false
}

/// Picks the compositing mode among the ones the surface supports.
pub fn choose_alpha_mode(modes: &[CompositeAlphaMode]) -> (mode: CompositeAlphaMode)
    requires
        modes@.len() > 0,
    ensures
        mode == preferred_alpha_mode(modes@),
        modes@.contains(CompositeAlphaMode::PreMultiplied) ==> mode
            == CompositeAlphaMode::PreMultiplied,
        !modes@.contains(CompositeAlphaMode::PreMultiplied) && modes@.contains(
            CompositeAlphaMode::Auto,
        ) ==> mode == CompositeAlphaMode::Auto,
        !modes@.contains(CompositeAlphaMode::PreMultiplied) && !modes@.contains(
            CompositeAlphaMode::Auto,
        ) ==> mode == modes@[0],
        modes@.contains(mode),
{
    if offers(modes, CompositeAlphaMode::PreMultiplied) {
        CompositeAlphaMode::PreMultiplied
    } else if offers(modes, CompositeAlphaMode::Auto) {
        CompositeAlphaMode::Auto
    } else {
        modes[0]
    }
}

/// The preferred mode is always one that is offered, premultiplied whenever
/// it is offered, the automatic one when premultiplied is not offered but
/// automatic is, and the first offered mode when neither is.
pub proof fn lemma_alpha_mode_preference(modes: Seq<CompositeAlphaMode>)
    requires
        modes.len() > 0,
    ensures
        modes.contains(preferred_alpha_mode(modes)),
        modes.contains(CompositeAlphaMode::PreMultiplied) ==> preferred_alpha_mode(modes)
            == CompositeAlphaMode::PreMultiplied,
        !modes.contains(CompositeAlphaMode::PreMultiplied) && modes.contains(
            CompositeAlphaMode::Auto,
        ) ==> preferred_alpha_mode(modes) == CompositeAlphaMode::Auto,
        !modes.contains(CompositeAlphaMode::PreMultiplied) && !modes.contains(
            CompositeAlphaMode::Auto,
        ) ==> preferred_alpha_mode(modes) == modes[0],
{
    assert(modes.contains(modes[0]));
}

/// What the display supports for a surface: pixel formats (preferred first)
/// and compositing modes.
pub struct SurfaceCapabilities<F> {
    pub formats: Vec<F>,
    pub alpha_modes: Vec<CompositeAlphaMode>,
}

/// The chosen surface configuration.
#[derive(Debug)]
pub struct SurfaceSettings<F> {
    pub format: F,
    pub width: u32,
    pub height: u32,
    pub alpha_mode: CompositeAlphaMode,
}

/// A surface dimension as configured: a degenerate zero becomes one pixel.
pub open spec fn surface_extent(n: u32) -> u32 {
    if n == 0 {
        1
    } else {
        n
    }
}

/// A surface dimension is the requested one, except that zero becomes one
/// pixel: it is never zero and never differs from a nonzero request.
pub proof fn lemma_surface_extent_keeps_nonzero_sizes(n: u32)
    ensures
        surface_extent(n) >= 1,
        n != 0 ==> surface_extent(n) == n,
        n == 0 ==> surface_extent(n) == 1,
{
}

/// Configures the surface for a window of `size` pixels: the display's
/// preferred format, the preferred compositing mode, and the size with
/// degenerate dimensions clamped to one pixel.
pub fn surface_configuration<F: Copy>(
    capabilities: &SurfaceCapabilities<F>,
    size: (u32, u32),
) -> (settings: SurfaceSettings<F>)
    requires
        capabilities.formats@.len() > 0,
        capabilities.alpha_modes@.len() > 0,
    ensures
        settings.format == capabilities.formats@[0],
        settings.width == surface_extent(size.0),
        settings.height == surface_extent(size.1),
        settings.alpha_mode == preferred_alpha_mode(capabilities.alpha_modes@),
        size.0 != 0 ==> settings.width == size.0,
        size.0 == 0 ==> settings.width == 1,
        size.1 != 0 ==> settings.height == size.1,
        size.1 == 0 ==> settings.height == 1,
        capabilities.alpha_modes@.contains(CompositeAlphaMode::PreMultiplied)
            ==> settings.alpha_mode == CompositeAlphaMode::PreMultiplied,
        capabilities.alpha_modes@.contains(settings.alpha_mode),
{
    SurfaceSettings {
        format: capabilities.formats[0],
        width: if size.0 == 0 { 1 } else { size.0 },
        height: if size.1 == 0 { 1 } else { size.1 },
        alpha_mode: choose_alpha_mode(capabilities.alpha_modes.as_slice()),
    }
}

/// The size a resize request configures the surface to: a request with a
/// zero dimension (a minimized window) is ignored and leaves the surface as
/// it was.
pub fn resize_target(width: u32, height: u32) -> (target: Option<(u32, u32)>)
    ensures
        target == if width == 0 || height == 0 {
            None
        } else {
            Some((width, height))
        },
{
    if width == 0 || height == 0 {
        None
    } else {
        Some((width, height))
    }
}

/// Why acquiring the next frame of the surface failed.
#[derive(Debug, Clone, Copy, PartialEq, Eq, Hash, Structural)]
pub enum SurfaceError {
    /// Acquiring timed out.
    Timeout,
    /// The surface changed and must be configured again.
    Outdated,
    /// The swap chain was lost and must be recreated.
    Lost,
    /// No memory is left for a new frame.
    OutOfMemory,
    /// Any other failure.
    Other,
}

/// What the renderer does about a frame it could not acquire.
#[derive(Debug, Clone, Copy, PartialEq, Eq, Hash, Structural)]
pub enum FrameRecovery {
    /// Configure the surface again and skip this frame.
    Reconfigure,
    /// Give up: rendering cannot go on.
    Fatal,
    /// Skip this frame and try again on the next one.
    Skip,
}

/// Decides how to recover from a failed frame acquisition: an outdated or
/// lost surface is configured again, running out of memory is fatal, and
/// any other failure only skips the frame.
pub fn surface_error_recovery(error: SurfaceError) -> (recovery: FrameRecovery)
    ensures
        recovery == match error {
            SurfaceError::Lost | SurfaceError::Outdated => FrameRecovery::Reconfigure,
            SurfaceError::OutOfMemory => FrameRecovery::Fatal,
            SurfaceError::Timeout | SurfaceError::Other => FrameRecovery::Skip,
        },
{
    match error {
        SurfaceError::Lost | SurfaceError::Outdated => FrameRecovery::Reconfigure,
        SurfaceError::OutOfMemory => FrameRecovery::Fatal,
        _ => FrameRecovery::Skip,
    }
}

} // verus!
