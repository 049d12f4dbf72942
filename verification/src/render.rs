//! The render-loop state machine that orchestrates both demos.
//!
//! The loop starts UNINITIALIZED, becomes READY when one-shot setup (compile,
//! link, geometry, texture, initial uniforms) succeeded, and STOPPED when any
//! part of setup failed. The triangle demo then performs a single
//! clear-and-draw and rests at READY: it never schedules a frame. The cube
//! demo enters RUNNING, and on every frame callback it recomputes the world
//! phase from the sampled elapsed time, clears, binds its texture, issues one
//! indexed draw and re-requests exactly one callback. A host-level failure
//! while running (a lost context) is terminal: the loop goes to STOPPED and
//! schedules nothing further.
//!
//! The host owns the GPU calls; each method here returns the exact actions
//! the host must perform for the step just decided.

use crate::pipeline::SetupError;
use crate::transform::TransformState;
use crate::transform::WorldPhase;
use crate::transform::demo_projection;
use crate::transform::demo_view;
use crate::transform::phase_at;
use vstd::prelude::*;

verus! {

/// Which of the two demos the loop drives.
#[derive(Clone, Copy, Debug, PartialEq, Eq, Structural)]
pub enum DemoKind {
    ColorTriangle,
    TexturedCube,
}

/// The color the frame buffer is cleared to before each draw, in
/// thousandths of each channel.
#[derive(Clone, Copy, Debug, PartialEq, Eq, Structural)]
pub struct ClearColor {
    pub red: u32,
    pub green: u32,
    pub blue: u32,
    pub alpha: u32,
}

/// The clear color both demos use: 0.75, 0.85, 0.8, 1.0.
pub open spec fn demo_clear_color() -> ClearColor {
    ClearColor { red: 750u32, green: 850u32, blue: 800u32, alpha: 1000u32 }
}

/// The clear color as the host takes it, for the one clear that setup
/// performs before any frame runs.
pub fn initial_clear_color() -> (c: ClearColor)
    ensures
        c == demo_clear_color(),
{
    ClearColor { red: 750, green: 850, blue: 800, alpha: 1000 }
}

/// The one draw call of a frame; both demos draw triangles.
#[derive(Clone, Copy, Debug, PartialEq, Eq, Structural)]
pub enum DrawCall {
    /// Non-indexed: `count` vertices starting at `first` in the vertex
    /// buffer.
    Arrays { first: u32, count: u32 },
    /// Indexed: `count` 16-bit entries from the start of the index buffer.
    Elements { count: u32 },
}

/// Everything the host performs for one frame, in order: upload the world
/// phase as the world-matrix uniform (cube only), clear color and depth,
/// bind the texture to the given unit (cube only), issue the draw, and
/// re-request one frame callback exactly when the loop goes on running.
#[derive(Clone, Copy, Debug, PartialEq, Eq, Structural)]
pub struct FrameActions {
    pub set_world: Option<WorldPhase>,
    pub clear: ClearColor,
    pub bind_texture_unit: Option<u32>,
    pub draw: DrawCall,
    pub schedule_next: bool,
}

/// The triangle demo's single clear-and-draw: three vertices, no texture, no
/// animation, no further scheduling.
pub open spec fn triangle_frame() -> FrameActions {
    FrameActions {
        set_world: None,
        clear: demo_clear_color(),
        bind_texture_unit: None,
        draw: DrawCall::Arrays { first: 0u32, count: 3u32 },
        schedule_next: false,
    }
}

/// One cube frame at world phase `p`: upload the phase, clear, bind the
/// texture to unit 0, draw the 36 indices, and re-arm the loop.
pub open spec fn cube_frame(p: WorldPhase) -> FrameActions {
    FrameActions {
        set_world: Some(p),
        clear: demo_clear_color(),
        bind_texture_unit: Some(0u32),
        draw: DrawCall::Elements { count: 36u32 },
        schedule_next: true,
    }
}

/// Law: a cube frame draws the whole index buffer, whatever the phase: the
/// indexed draw's count equals the number of entries in the cube's index
/// buffer, and the triangle's one-shot frame draws its whole vertex buffer
/// from the first vertex on.
pub proof fn lemma_frames_draw_whole_buffers(p: WorldPhase)
    ensures
        cube_frame(p).draw matches DrawCall::Elements { count } && count
            == crate::geometry::cube_indices().len(),
        triangle_frame().draw matches DrawCall::Arrays { first, count } && first == 0 && count * 5
            == crate::geometry::triangle_floats().len(),
{
}

/// What `begin` asks of the host: request the first frame callback (cube),
/// or perform the single one-shot frame (triangle).
#[derive(Clone, Copy, Debug, PartialEq, Eq, Structural)]
pub struct BeginActions {
    pub schedule_first: bool,
    pub one_shot_frame: Option<FrameActions>,
}

/// Why a loop stopped for good.
#[derive(Clone, Debug, PartialEq, Eq)]
pub enum StopReason {
    /// One-shot setup failed; the loop never started.
    Setup(SetupError),
    /// The host reported an unrecoverable failure while running.
    Host(String),
}

/// The loop's state: one-shot setup still pending, set up and at rest,
/// animating, or terminally stopped.
#[derive(Clone, Debug, PartialEq, Eq)]
pub enum LoopState {
    Uninitialized,
    Ready,
    Running,
    Stopped(StopReason),
}

/// The orchestrating state machine of one demo. It owns the transform state;
/// every GPU handle stays with the host, which performs the actions each
/// method returns. Nothing here runs concurrently: the host's scheduler
/// keeps at most one callback pending, and the contracts below keep it so by
/// re-requesting at most one.
pub struct RenderLoop {
    pub kind: DemoKind,
    pub state: LoopState,
    pub transform: TransformState,
}

impl RenderLoop {
    /// The triangle demo never animates, so it is never RUNNING; the world
    /// phase is always a well-formed one.
    pub open spec fn wf(self) -> bool {
        &&& self.transform.wf()
        &&& self.kind is ColorTriangle ==> !(self.state is Running)
    }

    /// Creates the loop for a surface with the given aspect ratio (in
    /// thousandths): nothing is set up yet, and the transform holds the
    /// fixed camera, the fixed projection and the identity world matrix.
    pub fn new(kind: DemoKind, aspect_milli: u32) -> (rl: RenderLoop)
        ensures
            rl.kind == kind,
            rl.state is Uninitialized,
            rl.transform.view == demo_view(),
            rl.transform.proj == demo_projection(aspect_milli),
            rl.transform.world.is_identity(),
            rl.wf(),
    {
        RenderLoop { kind, state: LoopState::Uninitialized, transform: TransformState::init(aspect_milli) }
    }

    /// Records the outcome of one-shot setup: on success the loop is READY;
    /// on any setup error it is STOPPED with that error and never starts.
    pub fn complete_setup(&mut self, outcome: Result<(), SetupError>)
        requires
            old(self).state is Uninitialized,
            old(self).wf(),
        ensures
            outcome is Ok ==> final(self).state is Ready,
            outcome matches Err(e) ==> (final(self).state matches LoopState::Stopped(
                StopReason::Setup(e2),
            ) && e2 == e),
            final(self).kind == old(self).kind,
            final(self).transform == old(self).transform,
            final(self).wf(),
    {
        match outcome {
            Ok(()) => {
                self.state = LoopState::Ready;
            },
            Err(e) => {
                self.state = LoopState::Stopped(StopReason::Setup(e));
            },
        }
    }

    /// Starts the demo once setup completed. The triangle performs its
    /// single clear-and-draw and rests at READY with no callback requested;
    /// the cube requests its first frame callback and is RUNNING from here
    /// on. Exactly one callback is outstanding exactly when the loop runs.
    pub fn begin(&mut self) -> (a: BeginActions)
        requires
            old(self).state is Ready,
            old(self).wf(),
        ensures
            final(self).kind == old(self).kind,
            final(self).transform == old(self).transform,
            old(self).kind is ColorTriangle ==> (final(self).state is Ready
                && a.one_shot_frame == Some(triangle_frame())),
            old(self).kind is TexturedCube ==> (final(self).state is Running
                && a.one_shot_frame is None),
            a.schedule_first == (final(self).state is Running),
            final(self).wf(),
    {
        match self.kind {
            DemoKind::ColorTriangle => BeginActions {
                schedule_first: false,
                one_shot_frame: Some(
                    FrameActions {
                        set_world: None,
                        clear: ClearColor { red: 750, green: 850, blue: 800, alpha: 1000 },
                        bind_texture_unit: None,
                        draw: DrawCall::Arrays { first: 0, count: 3 },
                        schedule_next: false,
                    },
                ),
            },
            DemoKind::TexturedCube => {
                self.state = LoopState::Running;
                BeginActions { schedule_first: true, one_shot_frame: None }
            },
        }
    }

    /// One frame callback of the cube's steady state: sample the elapsed
    /// time, recompute the world phase from it alone, and return the frame's
    /// actions — upload, clear, bind texture unit 0, draw the 36 indices,
    /// re-request exactly one callback. The loop stays RUNNING.
    pub fn on_frame(&mut self, t_ms: u64) -> (a: FrameActions)
        requires
            old(self).state is Running,
            old(self).kind is TexturedCube,
            old(self).wf(),
        ensures
            final(self).state is Running,
            final(self).kind == old(self).kind,
            final(self).transform.view == old(self).transform.view,
            final(self).transform.proj == old(self).transform.proj,
            final(self).transform.world == phase_at(t_ms),
            a == cube_frame(phase_at(t_ms)),
            a.schedule_next == (final(self).state is Running),
            final(self).wf(),
    {
        let p = self.transform.update(t_ms);
        FrameActions {
            set_world: Some(p),
            clear: ClearColor { red: 750, green: 850, blue: 800, alpha: 1000 },
            bind_texture_unit: Some(0),
            draw: DrawCall::Elements { count: 36 },
            schedule_next: true,
        }
    }

    /// An unrecoverable host-level failure while running (a lost context):
    /// the loop is STOPPED with the host's message and schedules nothing
    /// further; there is no transition out of STOPPED.
    pub fn stop(&mut self, message: String)
        requires
            old(self).state is Running,
            old(self).wf(),
        ensures
            final(self).state matches LoopState::Stopped(StopReason::Host(m)) && m == message,
            final(self).kind == old(self).kind,
            final(self).transform == old(self).transform,
            final(self).wf(),
    {
        self.state = LoopState::Stopped(StopReason::Host(message));
    }
}

} // verus!
