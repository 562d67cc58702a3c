use vstd::prelude::*;
use crate::geometry::{cube_draw, quad_draw, DrawCall, cube_index_seq, quad_index_seq};

verus! {

/// Whether a viewport's GPU resources exist yet.
#[derive(Clone, Copy, Debug, PartialEq, Eq, Structural)]
pub enum Phase {
    /// No shaders, buffers or vertex arrays yet.
    Uninitialized,
    /// Shaders compiled and linked, geometry uploaded.
    Ready,
}

/// Where the matrix bound to a shader uniform comes from.
#[derive(Clone, Copy, Debug, PartialEq, Eq, Structural)]
pub enum MatrixSource {
    /// The cube's accumulated model rotation.
    Model,
    /// The camera's view matrix, handed in by the caller.
    CameraView,
    /// The camera's projection matrix, handed in by the caller.
    CameraProjection,
    /// The fixed orthographic projection spanning -1 to 1 on every axis.
    UnitOrthographic,
}

/// What one viewport does each frame, in order: bind its program, set the
/// `u_model`, `u_view` and `u_projection` uniforms from the given sources,
/// clear the colour buffer (and the depth buffer if asked), bind its vertex
/// array and issue `draw`.
#[derive(Clone, Copy, Debug, PartialEq, Eq, Structural)]
pub struct ViewportPass {
    pub model: MatrixSource,
    pub view: MatrixSource,
    pub projection: MatrixSource,
    pub clear_depth: bool,
    pub draw: DrawCall,
}

/// The cube viewport's pass: model, camera view and camera projection;
/// colour and depth cleared; all 36 indices drawn.
pub open spec fn cube_pass() -> ViewportPass {
    ViewportPass {
        model: MatrixSource::Model,
        view: MatrixSource::CameraView,
        projection: MatrixSource::CameraProjection,
        clear_depth: true,
        draw: DrawCall { index_count: cube_index_seq().len() as i32 },
    }
}

/// The cross-section's pass: the model rotation as both model and view, the
/// unit orthographic projection; colour cleared only; all 6 indices drawn.
pub open spec fn cross_section_pass() -> ViewportPass {
    ViewportPass {
        model: MatrixSource::Model,
        view: MatrixSource::Model,
        projection: MatrixSource::UnitOrthographic,
        clear_depth: false,
        draw: DrawCall { index_count: quad_index_seq().len() as i32 },
    }
}

/// What one animation frame is to do, in order: set up the GPU resources of
/// both viewports (on the first frame only), then run the cube's pass and
/// the cross-section's pass.
#[derive(Clone, Copy, Debug, PartialEq, Eq, Structural)]
pub struct FramePlan {
    pub set_up: bool,
    pub cube: ViewportPass,
    pub cross_section: ViewportPass,
}

/// The render lifecycle of the two viewports, which are set up together.
#[derive(Clone, Copy, Debug, PartialEq, Eq, Structural)]
pub struct Renderer {
    pub phase: Phase,
}

/// How many of `n` frames, starting in `phase`, set up the GPU resources.
pub open spec fn setups_in(phase: Phase, n: nat) -> nat
    decreases n,
{
    if n == 0 {
        0
    } else {
        (if phase == Phase::Uninitialized { 1nat } else { 0nat }) + setups_in(Phase::Ready, (n - 1) as nat)
    }
}

impl Renderer {
    pub fn new() -> (r: Self)
        ensures
            r.phase == Phase::Uninitialized,
    {
        Renderer { phase: Phase::Uninitialized }
    }

    /// Plans the next frame. Resources are set up on the first frame and
    /// never again; every frame runs both passes in full, whether or not
    /// anything changed: one indexed draw of 36 indices for the cube, one of
    /// 6 for the cross-section.
    pub fn next_frame(&mut self) -> (r: FramePlan)
        ensures
            final(self).phase == Phase::Ready,
            r.set_up == (old(self).phase == Phase::Uninitialized),
            r.cube == cube_pass(),
            r.cube.draw.index_count == 36,
            r.cross_section == cross_section_pass(),
            r.cross_section.draw.index_count == 6,
    {
        let set_up = match self.phase {
            Phase::Uninitialized => true,
            Phase::Ready => false,
        };
        self.phase = Phase::Ready;
        let cube = ViewportPass {
            model: MatrixSource::Model,
            view: MatrixSource::CameraView,
            projection: MatrixSource::CameraProjection,
            clear_depth: true,
            draw: cube_draw(),
        };
        let cross_section = ViewportPass {
            model: MatrixSource::Model,
            view: MatrixSource::Model,
            projection: MatrixSource::UnitOrthographic,
            clear_depth: false,
            draw: quad_draw(),
        };
        FramePlan { set_up, cube, cross_section }
    }
}

/// However many frames are rendered, the GPU resources are set up exactly
/// once, on the first of them.
pub proof fn set_up_exactly_once(n: nat)
    ensures
        setups_in(Phase::Uninitialized, n) == if n == 0 { 0nat } else { 1nat },
    decreases n,
{
    if n > 0 {
        ready_sets_up_nothing((n - 1) as nat);
    }
}

/// Once ready, no frame sets up anything again.
pub proof fn ready_sets_up_nothing(n: nat)
    ensures
        setups_in(Phase::Ready, n) == 0,
    decreases n,
{
    if n > 0 {
        ready_sets_up_nothing((n - 1) as nat);
    }
}

} // verus!
