//! The render state: the surface, the mesh and the draw strategy, and the
//! per-frame protocol over them. The device, queue and GPU objects live with
//! the presentation backend; this decides what the backend is asked to do.
use vstd::prelude::*;
use crate::geometry::{indices_in_range, DrawCall, DrawMode, Mesh, MeshView};
use crate::surface::{
    ErrorClass, SurfaceConfig, SurfaceError, SurfaceManager, SurfaceView, MAX_FRAME_LATENCY,
};

verus! {

/// Slot to which the vertex buffer is bound.
pub const VERTEX_SLOT: u32 = 0;

/// Width of one entry of the index buffer.
#[derive(Debug, Clone, Copy, PartialEq, Eq, Structural)]
pub enum IndexFormat {
    Uint16,
    Uint32,
}

/// What the one render pass of a frame records: clear to the clear color,
/// bind the pipeline, bind the vertex buffer at `vertex_slot` and the index
/// buffer as `index_format`, issue `draw`.
#[derive(Debug, Clone, Copy, PartialEq, Eq, Structural)]
pub struct FramePlan {
    pub vertex_slot: u32,
    pub index_format: IndexFormat,
    pub draw: DrawCall,
}

/// The first step of a redraw, after the next redraw has been requested.
#[derive(Debug, Clone, Copy, PartialEq, Eq, Structural)]
pub enum RenderStep {
    /// The surface was never configured: nothing is acquired or submitted,
    /// and the frame counts as rendered.
    Idle,
    /// Acquire the next frame, record the plan into it, submit, present.
    Acquire(FramePlan),
}

/// What to do after acquiring a frame failed.
#[derive(Debug, Clone, Copy, PartialEq, Eq, Structural)]
pub enum Recovery {
    /// Configure the backend's surface with this, and go on.
    Reconfigure(SurfaceConfig),
    /// Skip this frame; the next one tries again.
    Wait,
    /// Stop rendering and report the failure.
    Terminate(SurfaceError),
}

/// What a render state holds.
pub struct StateView {
    pub surface: SurfaceView,
    pub mesh: MeshView,
    pub mode: DrawMode,
}

impl StateView {
    pub open spec fn wf(self) -> bool {
        &&& self.surface.wf()
        &&& indices_in_range(self.mesh.indices, self.mesh.vertex_count)
        &&& self.mesh.indices.len() <= u32::MAX
        &&& self.mesh.vertex_count <= u32::MAX
    }

    /// The state after a resize to `width` x `height`.
    pub open spec fn resized(self, width: u32, height: u32) -> StateView {
        StateView { surface: self.surface.configured_at(width, height), ..self }
    }

    /// The state with the other draw strategy.
    pub open spec fn toggled(self) -> StateView {
        StateView { mode: self.mode.toggled_spec(), ..self }
    }

    pub open spec fn frame_plan(self) -> FramePlan {
        FramePlan {
            vertex_slot: VERTEX_SLOT,
            index_format: IndexFormat::Uint16,
            draw: self.mesh.draw_call(self.mode),
        }
    }

    pub open spec fn render_step(self) -> RenderStep {
        if self.surface.configured {
            RenderStep::Acquire(self.frame_plan())
        } else {
            RenderStep::Idle
        }
    }

    /// The state after acquiring a frame failed with `e` while the window
    /// measured `width` x `height`.
    pub open spec fn recovered(self, e: SurfaceError, width: u32, height: u32) -> StateView {
        if e.class_spec() == ErrorClass::Stale {
            self.resized(width, height)
        } else {
            self
        }
    }

    pub open spec fn recovery(self, e: SurfaceError, width: u32, height: u32) -> Recovery {
        match e.class_spec() {
            ErrorClass::Stale => if width == 0 || height == 0 {
                Recovery::Wait
            } else {
                Recovery::Reconfigure(self.resized(width, height).surface.config)
            },
            ErrorClass::Transient => Recovery::Wait,
            ErrorClass::Fatal => Recovery::Terminate(e),
        }
    }
}

/// The render state of one window.
pub struct State {
    surface: SurfaceManager,
    mesh: Mesh,
    mode: DrawMode,
}

impl View for State {
    type V = StateView;

    closed spec fn view(&self) -> StateView {
        StateView { surface: self.surface@, mesh: self.mesh@, mode: self.mode }
    }
}

impl State {
    pub open spec fn wf(&self) -> bool {
        self@.wf()
    }

    /// The state of a window of `width` x `height` that draws `mesh`:
    /// surface not yet configured, indexed drawing.
    pub fn new(width: u32, height: u32, mesh: Mesh) -> (r: State)
        requires
            mesh.wf(),
        ensures
            r.wf(),
            r@ == (StateView {
                surface: SurfaceView {
                    config: SurfaceConfig { width, height, max_frame_latency: MAX_FRAME_LATENCY },
                    configured: false,
                },
                mesh: mesh@,
                mode: DrawMode::Indexed,
            }),
    {
        State { surface: SurfaceManager::new(width, height), mesh, mode: DrawMode::Indexed }
    }

    /// Takes the window's new size. A zero width or height changes nothing
    /// and returns `None`; otherwise the size is stored and the configuration
    /// that the backend's surface must be given is returned.
    pub fn resize(&mut self, width: u32, height: u32) -> (r: Option<SurfaceConfig>)
        requires
            old(self).wf(),
        ensures
            final(self).wf(),
            final(self)@ == old(self)@.resized(width, height),
            r == (if width == 0 || height == 0 {
                None
            } else {
                Some(final(self)@.surface.config)
            }),
    {
        self.surface.configure(width, height)
    }

    pub fn is_surface_configured(&self) -> (r: bool)
        ensures
            r == self@.surface.configured,
    {
        self.surface.is_configured()
    }

    /// The surface configuration last stored.
    pub fn config(&self) -> (r: SurfaceConfig)
        ensures
            r == self@.surface.config,
    {
        self.surface.config()
    }

    pub fn draw_mode(&self) -> (r: DrawMode)
        ensures
            r == self@.mode,
    {
        self.mode
    }

    /// Switches between indexed and direct drawing.
    pub fn toggle_draw_mode(&mut self)
        requires
            old(self).wf(),
        ensures
            final(self).wf(),
            final(self)@ == old(self)@.toggled(),
    {
        self.mode = self.mode.toggled();
    }

    pub fn mesh(&self) -> (r: &Mesh)
        ensures
            r@ == self@.mesh,
    {
        &self.mesh
    }

    /// The render pass of a frame under the current draw strategy.
    pub fn frame_plan(&self) -> (r: FramePlan)
        requires
            self.wf(),
        ensures
            r == self@.frame_plan(),
    {
        FramePlan {
            vertex_slot: VERTEX_SLOT,
            index_format: IndexFormat::Uint16,
            draw: self.mesh.draw_call(self.mode),
        }
    }

    /// The first step of a redraw: nothing while the surface was never
    /// configured, else acquire a frame and record the frame plan.
    pub fn render(&self) -> (r: RenderStep)
        requires
            self.wf(),
        ensures
            r == self@.render_step(),
    {
        if self.surface.is_configured() {
            RenderStep::Acquire(self.frame_plan())
        } else {
            RenderStep::Idle
        }
    }

    /// Takes a failure to acquire a frame while the window measures
    /// `width` x `height`. A lost or outdated surface is configured again
    /// at that size (or left for the next frame where the size is zero); a
    /// timeout skips the frame; anything else ends rendering.
    pub fn recover(&mut self, e: SurfaceError, width: u32, height: u32) -> (r: Recovery)
        requires
            old(self).wf(),
        ensures
            final(self).wf(),
            final(self)@ == old(self)@.recovered(e, width, height),
            r == old(self)@.recovery(e, width, height),
    {
        match e.class() {
            ErrorClass::Stale => match self.resize(width, height) {
                Some(config) => Recovery::Reconfigure(config),
                None => Recovery::Wait,
            },
            ErrorClass::Transient => Recovery::Wait,
            ErrorClass::Fatal => Recovery::Terminate(e),
        }
    }

    /// Per-frame update of the scene; the mesh is static, so nothing changes.
    pub fn update(&mut self)
        ensures
            final(self)@ == old(self)@,
    {
    }
}

/// Toggling the draw strategy twice gives back the state one started with.
pub proof fn lemma_toggle_twice(s: StateView)
    ensures
        s.toggled().toggled() == s,
        s.toggled().mode != s.mode,
{
}

/// After a resize to a nonzero size, the next redraw acquires a frame of a
/// surface configured at exactly that size.
pub proof fn lemma_configured_state_acquires(s: StateView, width: u32, height: u32)
    requires
        s.wf(),
        width > 0,
        height > 0,
    ensures
        s.resized(width, height).wf(),
        s.resized(width, height).render_step() == RenderStep::Acquire(
            s.resized(width, height).frame_plan(),
        ),
        s.resized(width, height).surface.config.width == width,
        s.resized(width, height).surface.config.height == height,
{
}

/// A surface that went lost or out of date is configured again at the
/// window's current nonzero size, and the next redraw acquires a frame with
/// no further step.
pub proof fn lemma_stale_surface_recovers(s: StateView, e: SurfaceError, width: u32, height: u32)
    requires
        s.wf(),
        e.class_spec() == ErrorClass::Stale,
        width > 0,
        height > 0,
    ensures
        s.recovery(e, width, height) == Recovery::Reconfigure(
            s.recovered(e, width, height).surface.config,
        ),
        s.recovered(e, width, height).surface.config.width == width,
        s.recovered(e, width, height).surface.config.height == height,
        s.recovered(e, width, height).render_step() == RenderStep::Acquire(s.frame_plan()),
{
}

/// A mesh held by a render state only names vertices it has, so every
/// indexed draw reads indices below the vertex count.
pub proof fn lemma_indexed_draw_in_range(s: StateView, i: int)
    requires
        s.wf(),
        0 <= i < s.mesh.indices.len(),
    ensures
        (s.mesh.indices[i] as nat) < s.mesh.vertex_count,
        s.mesh.draw_call(DrawMode::Indexed).index_reads_spec() == s.mesh.indices.len(),
{
}

} // verus!
