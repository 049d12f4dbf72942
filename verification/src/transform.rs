//! The world/view/projection state of the textured-cube demo.
//!
//! The view and projection matrices are fixed at startup; only the world
//! matrix changes, as `rotationY(angle) * rotationX(angle / 4)` where
//! `angle = (elapsed seconds / 6) * 2*pi`. This module keeps the state in
//! exact integer form: lengths in thousandths of a world unit, and the two
//! rotation angles as phases within their periods (the Y rotation repeats
//! every 6000 ms, the X rotation every 24000 ms). The host turns a phase
//! into radians as `phase / period * 2*pi` when it uploads the uniform.

use vstd::prelude::*;

verus! {

/// Milliseconds of elapsed time per full turn about the Y axis.
pub const Y_PERIOD_MS: u64 = 6000;

/// Milliseconds of elapsed time per full turn about the X axis; the X
/// rotation runs at a quarter of the Y rate.
pub const X_PERIOD_MS: u64 = 24000;

/// The rotation phases that make up the world matrix: the Y angle is
/// `y_ms / 6000` of a full turn and the X angle is `x_ms / 24000` of a
/// full turn (a full turn being `2*pi` radians).
#[derive(Clone, Copy, Debug, PartialEq, Eq, Structural)]
pub struct WorldPhase {
    pub y_ms: u64,
    pub x_ms: u64,
}

impl WorldPhase {
    /// A phase lies strictly within its period.
    pub open spec fn wf(self) -> bool {
        self.y_ms < Y_PERIOD_MS && self.x_ms < X_PERIOD_MS
    }

    /// The identity world matrix: both angles zero.
    pub open spec fn is_identity(self) -> bool {
        self.y_ms == 0 && self.x_ms == 0
    }
}

/// The world phase determined by an elapsed time in milliseconds. The angle
/// is a pure function of elapsed wall-clock time, never of frame count, so
/// animation speed is independent of frame rate.
pub open spec fn phase_at(t_ms: u64) -> WorldPhase {
    WorldPhase { y_ms: (t_ms as int % Y_PERIOD_MS as int) as u64, x_ms: (t_ms as int
        % X_PERIOD_MS as int) as u64 }
}

/// An exact point or direction with coordinates in thousandths of a world
/// unit.
#[derive(Clone, Copy, Debug, PartialEq, Eq, Structural)]
pub struct Vec3Milli {
    pub x: i32,
    pub y: i32,
    pub z: i32,
}

/// The fixed camera: eye, look-at target and up direction.
#[derive(Clone, Copy, Debug, PartialEq, Eq, Structural)]
pub struct ViewParams {
    pub eye: Vec3Milli,
    pub target: Vec3Milli,
    pub up: Vec3Milli,
}

/// The fixed perspective projection: vertical field of view in degrees,
/// aspect ratio and clip distances in thousandths.
#[derive(Clone, Copy, Debug, PartialEq, Eq, Structural)]
pub struct ProjectionParams {
    pub fov_y_degrees: u32,
    pub aspect_milli: u32,
    pub near_milli: u32,
    pub far_milli: u32,
}

/// The camera the demo always uses: eye at (0, 0, -8) looking at the origin
/// with +Y up.
pub open spec fn demo_view() -> ViewParams {
    ViewParams {
        eye: Vec3Milli { x: 0i32, y: 0i32, z: -8000i32 },
        target: Vec3Milli { x: 0i32, y: 0i32, z: 0i32 },
        up: Vec3Milli { x: 0i32, y: 1000i32, z: 0i32 },
    }
}

/// The projection the demo always uses: 45 degree field of view, near plane
/// at 0.1, far plane at 1000, with the surface's aspect ratio.
pub open spec fn demo_projection(aspect_milli: u32) -> ProjectionParams {
    ProjectionParams {
        fov_y_degrees: 45u32,
        aspect_milli: aspect_milli,
        near_milli: 100u32,
        far_milli: 1000000u32,
    }
}

/// The world, view and projection state owned by the render loop. View and
/// projection are computed once at startup and never change; the world phase
/// is recomputed on every frame from the sampled elapsed time.
#[derive(Clone, Copy, Debug, PartialEq, Eq, Structural)]
pub struct TransformState {
    pub view: ViewParams,
    pub proj: ProjectionParams,
    pub world: WorldPhase,
}

impl TransformState {
    pub open spec fn wf(self) -> bool {
        self.world.wf()
    }

    /// Builds the startup state: the fixed camera and projection for the
    /// given aspect ratio, and the identity world matrix.
    pub fn init(aspect_milli: u32) -> (s: TransformState)
        ensures
            s.view == demo_view(),
            s.proj == demo_projection(aspect_milli),
            s.world.is_identity(),
            s.wf(),
    {
        TransformState {
            view: ViewParams {
                eye: Vec3Milli { x: 0, y: 0, z: -8000 },
                target: Vec3Milli { x: 0, y: 0, z: 0 },
                up: Vec3Milli { x: 0, y: 1000, z: 0 },
            },
            proj: ProjectionParams {
                fov_y_degrees: 45,
                aspect_milli: aspect_milli,
                near_milli: 100,
                far_milli: 1000000,
            },
            world: WorldPhase { y_ms: 0, x_ms: 0 },
        }
    }

    /// Recomputes the world phase from the elapsed time. The result depends
    /// on `t_ms` alone, so two calls with the same elapsed time yield the
    /// same world matrix; view and projection are untouched.
    pub fn update(&mut self, t_ms: u64) -> (p: WorldPhase)
        ensures
            p == phase_at(t_ms),
            p.wf(),
            final(self).world == p,
            final(self).view == old(self).view,
            final(self).proj == old(self).proj,
            final(self).wf(),
    {
        let p = WorldPhase { y_ms: t_ms % Y_PERIOD_MS, x_ms: t_ms % X_PERIOD_MS };
        self.world = p;
        p
    }
}

/// Law: the world matrix is a pure function of elapsed time. Two samples of
/// the same elapsed time produce the same phase, hence the same matrix.
pub proof fn lemma_update_pure(t1_ms: u64, t2_ms: u64)
    requires
        t1_ms == t2_ms,
    ensures
        phase_at(t1_ms) == phase_at(t2_ms),
{
}

/// Law: the Y rotation has a 6 second period. Sampling 6000 ms later leaves
/// the Y component of the world matrix unchanged.
pub proof fn lemma_y_rotation_periodic(t_ms: u64)
    requires
        t_ms + Y_PERIOD_MS <= u64::MAX,
    ensures
        phase_at((t_ms + Y_PERIOD_MS) as u64).y_ms == phase_at(t_ms).y_ms,
{
    vstd::arithmetic::div_mod::lemma_mod_multiples_vanish(
        1,
        t_ms as int,
        Y_PERIOD_MS as int,
    );
}

/// Law: the whole world matrix has a 24 second period: in 24 seconds the X
/// rotation completes once and the Y rotation exactly four times.
pub proof fn lemma_world_periodic(t_ms: u64)
    requires
        t_ms + X_PERIOD_MS <= u64::MAX,
    ensures
        phase_at((t_ms + X_PERIOD_MS) as u64) == phase_at(t_ms),
{
    vstd::arithmetic::div_mod::lemma_mod_multiples_vanish(
        1,
        t_ms as int,
        X_PERIOD_MS as int,
    );
    vstd::arithmetic::div_mod::lemma_mod_multiples_vanish(
        4,
        t_ms as int,
        Y_PERIOD_MS as int,
    );
}

} // verus!
