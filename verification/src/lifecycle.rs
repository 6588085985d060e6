//! The frame-loop state machine. One logical thread drives it; the GPU, the
//! window system and the clock only hand it plain events (a resize, a close
//! signal, a redraw opportunity, an acquisition outcome), and it answers with
//! the action the caller must perform (reconfigure, begin an acquisition,
//! submit, release resources).
//!
//! States: `Idle -> Acquiring -> Recording -> Submitting -> Presented ->
//! Idle`, plus `Suspended` (entered on a zero-size resize, left on the next
//! non-zero one) and `Terminated` (entered on a close signal or on a fatal
//! submission failure, with every GPU resource released exactly once, in
//! reverse acquisition order).

use vstd::prelude::*;
use crate::surface::{AcquireError, PixelFormat, PresentMode, SurfaceConfig};
use crate::commands::{frame_commands, record_frame_commands, Command};

verus! {

/// Where the loop stands between two events.
#[derive(Copy, Clone, PartialEq, Eq, Structural, Debug)]
pub enum LoopState {
    /// Waiting for the next redraw opportunity.
    Idle,
    /// A frame acquisition has begun and its outcome is awaited.
    Acquiring,
    /// A frame is held and its command sequence is being recorded.
    Recording,
    /// The command sequence is recorded and awaits submission.
    Submitting,
    /// The frame was handed back for presentation.
    Presented,
    /// Drawing is suspended: the window has no drawable area.
    Suspended,
    /// The loop is over and every GPU resource was released.
    Terminated,
}

/// One owned GPU resource, named for the release order on shutdown.
#[derive(Copy, Clone, PartialEq, Eq, Structural, Debug)]
pub enum Resource {
    Pipeline,
    Buffer,
    Swapchain,
    Device,
}

/// The order in which owned resources are released on every exit path:
/// the reverse of their acquisition order.
pub open spec fn release_order() -> Seq<Resource> {
    seq![Resource::Pipeline, Resource::Buffer, Resource::Swapchain, Resource::Device]
}

/// The render context: the loop's state, the surface configuration it
/// believes current, and a count of every resource-affecting action it has
/// asked for.
#[derive(Copy, Clone, PartialEq, Eq, Structural, Debug)]
pub struct FrameLoop {
    pub state: LoopState,
    pub config: SurfaceConfig,
    /// How often the swapchain was (re)configured, the startup
    /// configuration included.
    pub configure_count: u64,
    /// How often a pipeline was built; never grows after startup.
    pub pipeline_builds: u64,
    /// How often the vertex buffer was uploaded; never grows after startup.
    pub buffer_uploads: u64,
    /// How often the owned resources, the device last, were released.
    pub device_releases: u64,
}

impl FrameLoop {
    /// The loop's invariant: the configuration it believes current is always
    /// a valid (non-zero) one, and the resources are released exactly when,
    /// and only when, the loop has terminated.
    pub open spec fn wf(self) -> bool {
        &&& self.config.valid()
        &&& self.device_releases <= 1
        &&& (self.state is Terminated <==> self.device_releases == 1)
        &&& self.configure_count >= 1
    }

    /// A frame handle is outstanding exactly in these states.
    pub open spec fn frame_outstanding(self) -> bool {
        self.state is Recording || self.state is Submitting
    }

    /// A loop boundary: the only places where resize and redraw signals are
    /// taken up, so that a reconfiguration never races an in-flight frame.
    pub open spec fn at_loop_boundary(self) -> bool {
        self.state is Idle || self.state is Suspended
    }
}

/// The loop as it stands right after startup: configured once, pipeline
/// built once, buffer uploaded once, nothing released.
pub open spec fn start_state(width: u32, height: u32, format: PixelFormat, mode: PresentMode) -> FrameLoop {
    FrameLoop {
        state: LoopState::Idle,
        config: SurfaceConfig { width, height, format, mode },
        configure_count: 1,
        pipeline_builds: 1,
        buffer_uploads: 1,
        device_releases: 0,
    }
}

/// What a resize signal does at a loop boundary: a zero size suspends
/// drawing and touches nothing else; a non-zero size adopts the new extent,
/// reconfigures, and (re)enters `Idle`.
pub open spec fn resize_step(l: FrameLoop, width: u32, height: u32) -> FrameLoop {
    if width == 0 || height == 0 {
        FrameLoop { state: LoopState::Suspended, ..l }
    } else {
        FrameLoop {
            state: LoopState::Idle,
            config: SurfaceConfig { width, height, format: l.config.format, mode: l.config.mode },
            configure_count: (l.configure_count + 1) as u64,
            ..l
        }
    }
}

/// What a redraw opportunity does: from `Idle` an acquisition begins; while
/// `Suspended` nothing is drawn.
pub open spec fn redraw_step(l: FrameLoop) -> FrameLoop {
    if l.state is Idle {
        FrameLoop { state: LoopState::Acquiring, ..l }
    } else {
        l
    }
}

/// A successful acquisition: the frame is held and recording begins.
pub open spec fn acquired_step(l: FrameLoop) -> FrameLoop {
    FrameLoop { state: LoopState::Recording, ..l }
}

/// A failed acquisition: a timeout skips the tick; a lost surface is
/// recovered by one full reconfiguration. Either way the loop returns to
/// `Idle`.
pub open spec fn acquire_failed_step(l: FrameLoop, e: AcquireError) -> FrameLoop {
    match e {
        AcquireError::Timeout => FrameLoop { state: LoopState::Idle, ..l },
        AcquireError::SurfaceLost => FrameLoop {
            state: LoopState::Idle,
            configure_count: (l.configure_count + 1) as u64,
            ..l
        },
    }
}

/// The command sequence is recorded and awaits submission.
pub open spec fn recorded_step(l: FrameLoop) -> FrameLoop {
    FrameLoop { state: LoopState::Submitting, ..l }
}

/// The commands were submitted and the frame handed back for presentation.
pub open spec fn submitted_step(l: FrameLoop) -> FrameLoop {
    FrameLoop { state: LoopState::Presented, ..l }
}

/// Presentation is done; the loop goes round again.
pub open spec fn presented_step(l: FrameLoop) -> FrameLoop {
    FrameLoop { state: LoopState::Idle, ..l }
}

/// A close signal, or a fatal submission failure: unless the loop already
/// terminated, it terminates now and releases its resources once.
pub open spec fn close_step(l: FrameLoop) -> FrameLoop {
    if l.state is Terminated {
        l
    } else {
        FrameLoop {
            state: LoopState::Terminated,
            device_releases: (l.device_releases + 1) as u64,
            ..l
        }
    }
}

impl FrameLoop {
    /// Startup: the surface is configured once at the window's drawable
    /// size, the pipeline is built once and the vertex buffer uploaded once.
    pub fn start(width: u32, height: u32, format: PixelFormat, mode: PresentMode) -> (l: Self)
        requires
            width > 0,
            height > 0,
        ensures
            l == start_state(width, height, format, mode),
            l.wf(),
            l.at_loop_boundary(),
    {
        FrameLoop {
            state: LoopState::Idle,
            config: SurfaceConfig { width, height, format, mode },
            configure_count: 1,
            pipeline_builds: 1,
            buffer_uploads: 1,
            device_releases: 0,
        }
    }

    /// A resize signal, taken up at a loop boundary. Returns `true` exactly
    /// when the caller must reconfigure the swapchain, with the
    /// configuration the loop now believes current; a zero size never
    /// reconfigures and suspends drawing instead.
    pub fn on_resize(&mut self, width: u32, height: u32) -> (reconfigure: bool)
        requires
            old(self).wf(),
            old(self).at_loop_boundary(),
            old(self).configure_count < u64::MAX,
        ensures
            *final(self) == resize_step(*old(self), width, height),
            final(self).wf(),
            final(self).at_loop_boundary(),
            reconfigure <==> width > 0 && height > 0,
            width == 0 || height == 0 ==> final(self).state is Suspended
                && final(self).configure_count == old(self).configure_count,
            width > 0 && height > 0 ==> final(self).state is Idle
                && final(self).configure_count == old(self).configure_count + 1
                && final(self).config == old(self).config.spec_resized(width, height),
    {
        if width == 0 || height == 0 {
            self.state = LoopState::Suspended;
            false
        } else {
            self.config = self.config.resized(width, height);
            self.configure_count = self.configure_count + 1;
            self.state = LoopState::Idle;
            true
        }
    }

    /// A redraw opportunity, taken up at a loop boundary. Returns `true`
    /// exactly when an acquisition begins; while `Suspended` nothing is
    /// drawn.
    pub fn on_redraw(&mut self) -> (acquire: bool)
        requires
            old(self).wf(),
            old(self).at_loop_boundary(),
        ensures
            *final(self) == redraw_step(*old(self)),
            final(self).wf(),
            acquire <==> old(self).state is Idle,
            acquire ==> final(self).state is Acquiring && !final(self).frame_outstanding(),
            !acquire ==> final(self).state is Suspended,
    {
        if matches!(self.state, LoopState::Idle) {
            self.state = LoopState::Acquiring;
            true
        } else {
            false
        }
    }

    /// The pending acquisition succeeded: exactly one frame handle is now
    /// outstanding and recording begins.
    pub fn on_frame_acquired(&mut self)
        requires
            old(self).wf(),
            old(self).state is Acquiring,
        ensures
            *final(self) == acquired_step(*old(self)),
            final(self).wf(),
            final(self).state is Recording,
            final(self).frame_outstanding(),
            final(self).configure_count == old(self).configure_count,
    {
        self.state = LoopState::Recording;
    }

    /// The pending acquisition failed. On a timeout the tick is skipped and
    /// nothing is rebuilt; on a lost surface the caller must reconfigure,
    /// with the configuration the loop believes current. Returns `true`
    /// exactly when the caller must reconfigure. No frame is outstanding.
    pub fn on_acquire_failed(&mut self, e: AcquireError) -> (reconfigure: bool)
        requires
            old(self).wf(),
            old(self).state is Acquiring,
            old(self).configure_count < u64::MAX,
        ensures
            *final(self) == acquire_failed_step(*old(self), e),
            final(self).wf(),
            final(self).state is Idle,
            !final(self).frame_outstanding(),
            reconfigure <==> e is SurfaceLost,
            e is Timeout ==> final(self).configure_count == old(self).configure_count,
            e is SurfaceLost ==> final(self).configure_count == old(self).configure_count + 1,
            final(self).pipeline_builds == old(self).pipeline_builds,
            final(self).buffer_uploads == old(self).buffer_uploads,
    {
        match e {
            AcquireError::Timeout => {
                self.state = LoopState::Idle;
                false
            },
            AcquireError::SurfaceLost => {
                self.configure_count = self.configure_count + 1;
                self.state = LoopState::Idle;
                true
            },
        }
    }

    /// Records the frame's command sequence: always the fixed clear / bind
    /// pipeline / bind buffer / one draw of vertex range [0, 3) with
    /// instance range [0, 1). The frame stays outstanding until submitted.
    pub fn record_frame(&mut self) -> (cmds: Vec<Command>)
        requires
            old(self).wf(),
            old(self).state is Recording,
        ensures
            *final(self) == recorded_step(*old(self)),
            final(self).wf(),
            final(self).state is Submitting,
            final(self).frame_outstanding(),
            cmds@ == frame_commands(),
    {
        self.state = LoopState::Submitting;
        record_frame_commands()
    }

    /// The command sequence was submitted and the frame handed back for
    /// presentation: no frame handle is outstanding any more.
    pub fn on_submitted(&mut self)
        requires
            old(self).wf(),
            old(self).state is Submitting,
        ensures
            *final(self) == submitted_step(*old(self)),
            final(self).wf(),
            final(self).state is Presented,
            !final(self).frame_outstanding(),
    {
        self.state = LoopState::Presented;
    }

    /// Presentation is done; the loop returns to `Idle` for the next tick.
    pub fn on_presented(&mut self)
        requires
            old(self).wf(),
            old(self).state is Presented,
        ensures
            *final(self) == presented_step(*old(self)),
            final(self).wf(),
            final(self).state is Idle,
            final(self).at_loop_boundary(),
    {
        self.state = LoopState::Idle;
    }

    /// A close signal, honoured in every state. Unless the loop already
    /// terminated, it terminates now and hands back the resources to
    /// release, in reverse acquisition order, the device last; a second
    /// close releases nothing again.
    pub fn on_close(&mut self) -> (to_release: Vec<Resource>)
        requires
            old(self).wf(),
        ensures
            *final(self) == close_step(*old(self)),
            final(self).wf(),
            final(self).state is Terminated,
            old(self).state is Terminated ==> to_release@ == Seq::<Resource>::empty()
                && final(self).device_releases == old(self).device_releases,
            !(old(self).state is Terminated) ==> to_release@ == release_order()
                && final(self).device_releases == old(self).device_releases + 1,
            final(self).device_releases == 1,
    {
        if matches!(self.state, LoopState::Terminated) {
            Vec::new()
        } else {
            self.state = LoopState::Terminated;
            self.device_releases = self.device_releases + 1;
            let mut order: Vec<Resource> = Vec::new();
            order.push(Resource::Pipeline);
            order.push(Resource::Buffer);
            order.push(Resource::Swapchain);
            order.push(Resource::Device);
            proof {
                assert(order@ =~= release_order());
            }
            order
        }
    }

    /// A queue-submission failure indicates device loss and is fatal: the
    /// loop terminates as on a close signal, releasing everything once.
    pub fn on_submit_failed(&mut self) -> (to_release: Vec<Resource>)
        requires
            old(self).wf(),
            old(self).state is Submitting,
        ensures
            *final(self) == close_step(*old(self)),
            final(self).wf(),
            final(self).state is Terminated,
            to_release@ == release_order(),
            final(self).device_releases == 1,
    {
        self.on_close()
    }
}

/// Law: a resize to zero size never reconfigures and leaves the loop
/// `Suspended`; the next non-zero resize leaves `Suspended`, reconfigures
/// exactly once, and adopts the new extent with format and mode kept.
pub proof fn lemma_zero_resize_suspends_then_recovers(l: FrameLoop, width: u32, height: u32)
    requires
        l.wf(),
        l.at_loop_boundary(),
        l.configure_count < u64::MAX,
        width > 0,
        height > 0,
    ensures
        resize_step(l, 0, 0).state is Suspended,
        resize_step(l, 0, 0).configure_count == l.configure_count,
        resize_step(l, 0, 0).config == l.config,
        resize_step(resize_step(l, 0, 0), width, height).state is Idle,
        resize_step(resize_step(l, 0, 0), width, height).configure_count == l.configure_count
            + 1,
        resize_step(resize_step(l, 0, 0), width, height).config == l.config.spec_resized(
            width,
            height,
        ),
{
}

/// Law: at most one frame handle is ever outstanding. A frame is
/// outstanding only between a successful acquisition and the following
/// submission, and while it is, no second acquisition can happen: the loop
/// stands at no loop boundary, so no redraw opportunity is taken up, and
/// not in `Acquiring`, so no pending acquisition can conclude.
pub proof fn lemma_single_outstanding_frame(l: FrameLoop)
    requires
        l.frame_outstanding(),
    ensures
        !l.at_loop_boundary(),
        !(l.state is Acquiring),
        !redraw_step(l).frame_outstanding() || redraw_step(l) == l,
{
}

/// Law: every transition, fired in the state that enables it, keeps the
/// loop well formed — the believed configuration stays valid and the
/// resources stay released exactly when the loop has terminated.
pub proof fn lemma_steps_preserve_wf(l: FrameLoop, width: u32, height: u32, e: AcquireError)
    requires
        l.wf(),
        l.configure_count < u64::MAX,
    ensures
        l.at_loop_boundary() ==> resize_step(l, width, height).wf(),
        l.at_loop_boundary() ==> redraw_step(l).wf(),
        l.state is Acquiring ==> acquired_step(l).wf(),
        l.state is Acquiring ==> acquire_failed_step(l, e).wf(),
        l.state is Recording ==> recorded_step(l).wf(),
        l.state is Submitting ==> submitted_step(l).wf(),
        l.state is Presented ==> presented_step(l).wf(),
        close_step(l).wf(),
{
}

/// Law: a close signal in any state terminates the loop with the owned
/// resources, the device among them, released exactly once; closing an
/// already-terminated loop changes nothing, so no release is doubled.
pub proof fn lemma_close_terminates_and_releases_once(l: FrameLoop)
    requires
        l.wf(),
    ensures
        close_step(l).state is Terminated,
        close_step(l).wf(),
        close_step(l).device_releases == 1,
        close_step(close_step(l)) == close_step(l),
{
}

} // verus!
