//! The render-state lifecycle of a window that draws one static mesh with a
//! fixed pipeline: mesh validation, the vertex layout and pipeline state,
//! surface configuration, the per-frame protocol and the event driver.
pub mod geometry;
pub mod pipeline;
pub mod surface;
pub mod state;
pub mod driver;

pub use geometry::{DrawCall, DrawMode, GeometryError, Mesh};
pub use pipeline::{pipeline_state, vertex_layout, PipelineState, VertexLayout};
pub use surface::{choose_surface, SurfaceChoice, SurfaceConfig, SurfaceError, SurfaceManager};
pub use state::{FramePlan, IndexFormat, Recovery, RenderStep, State};
pub use driver::{App, Command, Key, Signal};
