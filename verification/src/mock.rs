//! A mock GPU backend: a device model with plain counters in place of real
//! GPU objects. Tests drive the frame loop against it to track resource
//! counts — how often the swapchain was configured, that each owned
//! resource is released exactly once, that no second frame is ever handed
//! out while one is outstanding.

use vstd::prelude::*;
use crate::lifecycle::Resource;
use crate::surface::{AcquireError, SurfaceConfig};

verus! {

/// A temporary claim on one swapchain image.
#[derive(Copy, Clone, PartialEq, Eq, Structural, Debug)]
pub struct FrameHandle {
    pub image_index: u64,
}

/// How the mock device behaves when a frame is asked for.
#[derive(Copy, Clone, PartialEq, Eq, Structural, Debug)]
pub enum DeviceMode {
    /// Every acquisition succeeds.
    Healthy,
    /// Every acquisition runs into the timeout.
    TimingOut,
    /// The surface is invalidated: every acquisition reports it lost.
    Lost,
}

/// The mock device: its behaviour, its current swapchain configuration,
/// and a count of everything a test may want to audit.
#[derive(Copy, Clone, Debug)]
pub struct MockGpu {
    pub mode: DeviceMode,
    pub configured: Option<SurfaceConfig>,
    pub configure_count: u64,
    pub frame_outstanding: bool,
    pub next_image: u64,
    pub pipeline_releases: u64,
    pub buffer_releases: u64,
    pub swapchain_releases: u64,
    pub device_releases: u64,
}

/// The device right after `configure`: the new configuration is current and
/// the configuration count went up by one; nothing else moved.
pub open spec fn spec_configured(g: MockGpu, c: SurfaceConfig) -> MockGpu {
    MockGpu { configured: Some(c), configure_count: (g.configure_count + 1) as u64, ..g }
}

impl MockGpu {
    /// The device handle is still owned: it was not released yet.
    pub open spec fn device_alive(self) -> bool {
        self.device_releases == 0
    }

    /// What acquiring a frame returns, decided by the device's behaviour
    /// alone: a healthy device always hands a frame out.
    pub open spec fn acquire_outcome(self) -> Result<FrameHandle, AcquireError> {
        match self.mode {
            DeviceMode::Healthy => Ok(FrameHandle { image_index: self.next_image }),
            DeviceMode::TimingOut => Err(AcquireError::Timeout),
            DeviceMode::Lost => Err(AcquireError::SurfaceLost),
        }
    }

    /// A fresh device of the given behaviour: unconfigured, no frame out,
    /// nothing released.
    pub fn new(mode: DeviceMode) -> (g: Self)
        ensures
            g == (MockGpu {
                mode,
                configured: None,
                configure_count: 0,
                frame_outstanding: false,
                next_image: 0,
                pipeline_releases: 0,
                buffer_releases: 0,
                swapchain_releases: 0,
                device_releases: 0,
            }),
    {
        MockGpu {
            mode,
            configured: None,
            configure_count: 0,
            frame_outstanding: false,
            next_image: 0,
            pipeline_releases: 0,
            buffer_releases: 0,
            swapchain_releases: 0,
            device_releases: 0,
        }
    }

    /// (Re)creates the presentation chain for a valid configuration.
    pub fn configure(&mut self, c: SurfaceConfig)
        requires
            old(self).device_alive(),
            c.valid(),
            old(self).configure_count < u64::MAX,
        ensures
            *final(self) == spec_configured(*old(self), c),
            final(self).configured == Some(c),
            final(self).configure_count == old(self).configure_count + 1,
    {
        self.configured = Some(c);
        self.configure_count = self.configure_count + 1;
    }

    /// Asks for a presentable frame. At most one is ever outstanding: the
    /// caller may not hold another. The outcome is the device behaviour's
    /// own; on success the handle is out until presented or discarded.
    pub fn acquire_frame(&mut self) -> (r: Result<FrameHandle, AcquireError>)
        requires
            old(self).device_alive(),
            old(self).configured is Some,
            !old(self).frame_outstanding,
            old(self).next_image < u64::MAX,
        ensures
            r == old(self).acquire_outcome(),
            r is Ok ==> *final(self) == (MockGpu {
                frame_outstanding: true,
                next_image: (old(self).next_image + 1) as u64,
                ..*old(self)
            }),
            r is Err ==> *final(self) == *old(self),
    {
        match self.mode {
            DeviceMode::Healthy => {
                let handle = FrameHandle { image_index: self.next_image };
                self.frame_outstanding = true;
                self.next_image = self.next_image + 1;
                Ok(handle)
            },
            DeviceMode::TimingOut => Err(AcquireError::Timeout),
            DeviceMode::Lost => Err(AcquireError::SurfaceLost),
        }
    }

    /// Hands the outstanding frame back for presentation; only the handle
    /// acquired last can be presented.
    pub fn present_frame(&mut self, f: FrameHandle)
        requires
            old(self).device_alive(),
            old(self).frame_outstanding,
            f.image_index + 1 == old(self).next_image,
        ensures
            *final(self) == (MockGpu { frame_outstanding: false, ..*old(self) }),
    {
        self.frame_outstanding = false;
    }

    /// Discards the outstanding frame without presenting it, as on a
    /// mid-frame cancellation.
    pub fn discard_frame(&mut self, f: FrameHandle)
        requires
            old(self).frame_outstanding,
            f.image_index + 1 == old(self).next_image,
        ensures
            *final(self) == (MockGpu { frame_outstanding: false, ..*old(self) }),
    {
        self.frame_outstanding = false;
    }

    /// Releases one owned resource. Each may be released only once, and the
    /// device only while it is still owned — a double free is refused by
    /// contract.
    pub fn release(&mut self, r: Resource)
        requires
            old(self).device_alive(),
            r is Pipeline ==> old(self).pipeline_releases == 0,
            r is Buffer ==> old(self).buffer_releases == 0,
            r is Swapchain ==> old(self).swapchain_releases == 0,
        ensures
            *final(self) == match r {
                Resource::Pipeline => MockGpu { pipeline_releases: 1, ..*old(self) },
                Resource::Buffer => MockGpu { buffer_releases: 1, ..*old(self) },
                Resource::Swapchain => MockGpu { swapchain_releases: 1, ..*old(self) },
                Resource::Device => MockGpu { device_releases: 1, ..*old(self) },
            },
    {
        match r {
            Resource::Pipeline => {
                self.pipeline_releases = 1;
            },
            Resource::Buffer => {
                self.buffer_releases = 1;
            },
            Resource::Swapchain => {
                self.swapchain_releases = 1;
            },
            Resource::Device => {
                self.device_releases = 1;
            },
        }
    }
}

/// Law: under a healthy device, configuring any valid non-zero extent and
/// immediately asking for a frame succeeds — no timeout.
pub proof fn lemma_configure_then_acquire_succeeds(g: MockGpu, c: SurfaceConfig)
    requires
        g.mode is Healthy,
        c.valid(),
    ensures
        spec_configured(g, c).acquire_outcome() is Ok,
        spec_configured(g, c).configured == Some(c),
{
}

} // verus!
