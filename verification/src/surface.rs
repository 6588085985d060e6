//! The presentable surface's configuration: size, pixel format and
//! presentation mode, together with the errors of frame acquisition and of
//! the one-time device connection.

use vstd::prelude::*;

verus! {

/// Pixel format of the presentable surface and of the render target.
#[derive(Copy, Clone, PartialEq, Eq, Structural, Debug)]
pub enum PixelFormat {
    Bgra8UnormSrgb,
    Bgra8Unorm,
    Rgba8UnormSrgb,
}

/// How finished frames are handed to the display.
#[derive(Copy, Clone, PartialEq, Eq, Structural, Debug)]
pub enum PresentMode {
    Mailbox,
    Fifo,
    Immediate,
}

/// The swapchain description: must always equal the window's drawable size,
/// and that size must be strictly positive.
#[derive(Copy, Clone, PartialEq, Eq, Structural, Debug)]
pub struct SurfaceConfig {
    pub width: u32,
    pub height: u32,
    pub format: PixelFormat,
    pub mode: PresentMode,
}

impl SurfaceConfig {
    /// A configuration is valid exactly when both extents are non-zero.
    pub open spec fn valid(self) -> bool {
        self.width > 0 && self.height > 0
    }

    pub fn new(width: u32, height: u32, format: PixelFormat, mode: PresentMode) -> (c: Self)
        requires
            width > 0,
            height > 0,
        ensures
            c == (SurfaceConfig { width, height, format, mode }),
            c.valid(),
    {
        SurfaceConfig { width, height, format, mode }
    }

    /// The same configuration at a new drawable size; format and mode are kept.
    pub open spec fn spec_resized(self, width: u32, height: u32) -> Self {
        SurfaceConfig { width, height, format: self.format, mode: self.mode }
    }

    /// The same configuration at a new drawable size; format and mode are kept.
    pub fn resized(self, width: u32, height: u32) -> (c: Self)
        requires
            width > 0,
            height > 0,
        ensures
            c == self.spec_resized(width, height),
            c.valid(),
    {
        SurfaceConfig { width, height, format: self.format, mode: self.mode }
    }
}

/// Why acquiring a presentable frame failed.
#[derive(Copy, Clone, PartialEq, Eq, Structural, Debug)]
pub enum AcquireError {
    /// No frame image became available within the internal timeout; the tick
    /// is skipped and the loop goes on.
    Timeout,
    /// The surface was invalidated from outside; only a full reconfiguration
    /// recovers it.
    SurfaceLost,
}

/// Why the one-time device connection failed; both are fatal at startup.
#[derive(Copy, Clone, PartialEq, Eq, Structural, Debug)]
pub enum ConnectionError {
    NoCompatibleAdapter,
    DeviceCreationFailed,
}

/// Classifies the one-time adapter/device setup from the two outside
/// outcomes: whether a presentation-capable adapter was found, and whether
/// that adapter granted a logical device.
pub fn classify_connection(adapter_found: bool, device_granted: bool) -> (r: Result<
    (),
    ConnectionError,
>)
    ensures
        r is Ok <==> adapter_found && device_granted,
        !adapter_found ==> r == Result::<(), ConnectionError>::Err(
            ConnectionError::NoCompatibleAdapter,
        ),
        adapter_found && !device_granted ==> r == Result::<(), ConnectionError>::Err(
            ConnectionError::DeviceCreationFailed,
        ),
{
    if !adapter_found {
        Err(ConnectionError::NoCompatibleAdapter)
    } else if !device_granted {
        Err(ConnectionError::DeviceCreationFailed)
    } else {
        Ok(())
    }
}

} // verus!
