use frame_render::pipeline::{
    CullMode, FrontFace, PolygonMode, StepMode, Topology, VertexAttribute, VertexFormat,
};
use frame_render::surface::ErrorClass;
use frame_render::{
    choose_surface, pipeline_state, vertex_layout, App, Command, DrawCall, DrawMode, FramePlan,
    GeometryError, IndexFormat, Key, Mesh, Recovery, RenderStep, Signal, State, SurfaceChoice,
    SurfaceConfig, SurfaceError, SurfaceManager,
};

fn pentagon() -> Mesh {
    Mesh::new(5, vec![0, 1, 4, 1, 2, 4, 2, 3, 4]).unwrap()
}

fn config(width: u32, height: u32) -> SurfaceConfig {
    SurfaceConfig { width, height, max_frame_latency: 2 }
}

fn running_app(width: u32, height: u32) -> App {
    let mut app = App::new();
    app.attach(State::new(width, height, pentagon()));
    app
}

#[test]
fn pentagon_indexed_draw_issues_three_triangles() {
    let state = State::new(800, 600, pentagon());
    assert_eq!(state.draw_mode(), DrawMode::Indexed);
    let draw = state.frame_plan().draw;
    assert_eq!(draw, DrawCall::Indexed { index_count: 9, base_vertex: 0, instance_count: 1 });
    assert_eq!(draw.triangles(), 3);
    assert_eq!(draw.elements(), 9);
    assert_eq!(draw.index_reads(), 9);
    assert_eq!(draw.instances(), 1);
}

#[test]
fn direct_draw_issues_every_vertex_and_reads_no_index() {
    let mut state = State::new(800, 600, pentagon());
    state.toggle_draw_mode();
    assert_eq!(state.draw_mode(), DrawMode::Direct);
    let draw = state.frame_plan().draw;
    assert_eq!(draw, DrawCall::Direct { vertex_count: 5, instance_count: 1 });
    assert_eq!(draw.elements(), 5);
    assert_eq!(draw.instances(), 1);
    assert_eq!(draw.index_reads(), 0);
    assert_eq!(draw.triangles(), 1);
}

#[test]
fn zero_resize_leaves_surface_unconfigured_and_render_idle() {
    let mut state = State::new(0, 0, pentagon());
    assert_eq!(state.resize(0, 0), None);
    assert!(!state.is_surface_configured());
    assert_eq!(state.render(), RenderStep::Idle);
}

#[test]
fn zero_width_or_height_changes_nothing() {
    let mut state = State::new(640, 480, pentagon());
    assert_eq!(state.resize(0, 300), None);
    assert_eq!(state.resize(300, 0), None);
    assert!(!state.is_surface_configured());
    assert_eq!(state.config(), config(640, 480));
    assert_eq!(state.resize(1024, 768), Some(config(1024, 768)));
    assert_eq!(state.resize(0, 10), None);
    assert!(state.is_surface_configured());
    assert_eq!(state.config(), config(1024, 768));
}

#[test]
fn zero_resize_after_valid_keeps_last_configuration() {
    let mut app = running_app(100, 100);
    assert_eq!(
        app.window_event(Signal::Resized { width: 800, height: 600 }),
        Command::Configure(config(800, 600))
    );
    assert!(app.state().unwrap().is_surface_configured());
    assert_eq!(app.window_event(Signal::Resized { width: 0, height: 0 }), Command::Nothing);
    assert!(app.state().unwrap().is_surface_configured());
    assert_eq!(app.state().unwrap().config(), config(800, 600));
    let plan = FramePlan {
        vertex_slot: 0,
        index_format: IndexFormat::Uint16,
        draw: DrawCall::Indexed { index_count: 9, base_vertex: 0, instance_count: 1 },
    };
    assert_eq!(app.window_event(Signal::RedrawRequested), Command::Frame(RenderStep::Acquire(plan)));
}

#[test]
fn configured_surface_acquires_on_redraw() {
    let mut state = State::new(0, 0, pentagon());
    assert_eq!(state.resize(320, 200), Some(config(320, 200)));
    assert!(state.is_surface_configured());
    assert_eq!(state.render(), RenderStep::Acquire(state.frame_plan()));
}

#[test]
fn outdated_surface_is_reconfigured_and_next_frame_acquires() {
    let mut app = running_app(800, 600);
    app.window_event(Signal::Resized { width: 800, height: 600 });
    assert_eq!(app.frame_failed(SurfaceError::Outdated, 1024, 768), Command::Configure(config(1024, 768)));
    assert!(!app.is_closed());
    assert_eq!(app.state().unwrap().config(), config(1024, 768));
    match app.window_event(Signal::RedrawRequested) {
        Command::Frame(RenderStep::Acquire(_)) => {}
        other => panic!("expected a frame to be acquired, got {:?}", other),
    }
}

#[test]
fn lost_surface_at_zero_size_waits() {
    let mut state = State::new(800, 600, pentagon());
    state.resize(800, 600);
    assert_eq!(state.recover(SurfaceError::Lost, 0, 0), Recovery::Wait);
    assert_eq!(state.config(), config(800, 600));
    assert_eq!(state.recover(SurfaceError::Lost, 640, 480), Recovery::Reconfigure(config(640, 480)));
}

#[test]
fn timeout_skips_the_frame() {
    let mut state = State::new(800, 600, pentagon());
    state.resize(800, 600);
    assert_eq!(state.recover(SurfaceError::Timeout, 10, 10), Recovery::Wait);
    assert_eq!(state.config(), config(800, 600));
}

#[test]
fn fatal_surface_errors_end_the_loop() {
    let mut state = State::new(800, 600, pentagon());
    state.resize(800, 600);
    assert_eq!(state.recover(SurfaceError::OutOfMemory, 10, 10), Recovery::Terminate(SurfaceError::OutOfMemory));
    assert_eq!(state.recover(SurfaceError::Other, 10, 10), Recovery::Terminate(SurfaceError::Other));
    assert_eq!(state.config(), config(800, 600));

    let mut app = running_app(800, 600);
    app.window_event(Signal::Resized { width: 800, height: 600 });
    assert_eq!(app.frame_failed(SurfaceError::OutOfMemory, 800, 600), Command::Fail(SurfaceError::OutOfMemory));
    assert!(app.is_closed());
    assert_eq!(app.window_event(Signal::RedrawRequested), Command::Nothing);
}

#[test]
fn error_classes() {
    assert_eq!(SurfaceError::Lost.class(), ErrorClass::Stale);
    assert_eq!(SurfaceError::Outdated.class(), ErrorClass::Stale);
    assert_eq!(SurfaceError::Timeout.class(), ErrorClass::Transient);
    assert_eq!(SurfaceError::OutOfMemory.class(), ErrorClass::Fatal);
    assert_eq!(SurfaceError::Other.class(), ErrorClass::Fatal);
}

#[test]
fn toggling_twice_restores_draw_strategy() {
    let mut state = State::new(800, 600, pentagon());
    let before = state.frame_plan();
    state.toggle_draw_mode();
    assert_ne!(state.frame_plan(), before);
    state.toggle_draw_mode();
    assert_eq!(state.draw_mode(), DrawMode::Indexed);
    assert_eq!(state.frame_plan(), before);
    assert_eq!(DrawMode::Direct.toggled().toggled(), DrawMode::Direct);
}

#[test]
fn v_key_toggles_and_escape_exits() {
    let mut app = running_app(800, 600);
    assert_eq!(app.window_event(Signal::Key { key: Key::V, pressed: false }), Command::Nothing);
    assert_eq!(app.state().unwrap().draw_mode(), DrawMode::Indexed);
    assert_eq!(app.window_event(Signal::Key { key: Key::V, pressed: true }), Command::Nothing);
    assert_eq!(app.state().unwrap().draw_mode(), DrawMode::Direct);
    assert_eq!(app.window_event(Signal::Key { key: Key::Other, pressed: true }), Command::Nothing);
    assert_eq!(app.window_event(Signal::Key { key: Key::Escape, pressed: true }), Command::Exit);
    assert!(app.is_closed());
    assert_eq!(app.window_event(Signal::Key { key: Key::V, pressed: true }), Command::Nothing);
    assert_eq!(app.state().unwrap().draw_mode(), DrawMode::Direct);
}

#[test]
fn close_request_exits_and_stops_processing() {
    let mut app = running_app(800, 600);
    assert_eq!(app.window_event(Signal::CloseRequested), Command::Exit);
    assert_eq!(app.window_event(Signal::Resized { width: 10, height: 10 }), Command::Nothing);
    assert!(!app.state().unwrap().is_surface_configured());
    assert_eq!(app.frame_failed(SurfaceError::Lost, 10, 10), Command::Nothing);
}

#[test]
fn signals_before_state_are_ignored() {
    let mut app = App::new();
    assert!(app.state().is_none());
    assert_eq!(app.window_event(Signal::Resized { width: 800, height: 600 }), Command::Nothing);
    assert_eq!(app.window_event(Signal::CloseRequested), Command::Nothing);
    assert_eq!(app.frame_failed(SurfaceError::OutOfMemory, 1, 1), Command::Nothing);
    assert!(!app.is_closed());
}

#[test]
fn redraw_before_configure_is_idle() {
    let mut app = running_app(800, 600);
    assert_eq!(app.window_event(Signal::RedrawRequested), Command::Frame(RenderStep::Idle));
    assert_eq!(app.window_event(Signal::Other), Command::Nothing);
}

#[test]
fn out_of_range_index_is_refused_at_build() {
    assert_eq!(
        Mesh::new(5, vec![0, 1, 4, 1, 2, 5, 7]).err(),
        Some(GeometryError::IndexOutOfRange { position: 5, index: 5 })
    );
    assert_eq!(Mesh::new(0, vec![0]).err(), Some(GeometryError::IndexOutOfRange { position: 0, index: 0 }));
    let empty = Mesh::new(0, vec![]).unwrap();
    assert_eq!(empty.vertex_count(), 0);
    assert_eq!(empty.index_count(), 0);
}

#[test]
fn mesh_keeps_its_data() {
    let mesh = pentagon();
    assert_eq!(mesh.vertex_count(), 5);
    assert_eq!(mesh.index_count(), 9);
    assert_eq!(mesh.indices(), &[0u16, 1, 4, 1, 2, 4, 2, 3, 4][..]);
}

#[test]
fn index_bytes_hold_two_bytes_per_index() {
    let mesh = pentagon();
    let bytes = mesh.index_bytes();
    assert_eq!(bytes.len(), 18);
    let back: Vec<u16> = bytes.chunks(2).map(|c| u16::from_ne_bytes([c[0], c[1]])).collect();
    assert_eq!(back, vec![0, 1, 4, 1, 2, 4, 2, 3, 4]);
}

#[test]
fn surface_manager_configures_only_nonzero_sizes() {
    let mut surface = SurfaceManager::new(0, 0);
    assert!(!surface.is_configured());
    assert_eq!(surface.configure(0, 5), None);
    assert!(!surface.is_configured());
    assert_eq!(surface.configure(800, 600), Some(config(800, 600)));
    assert_eq!(surface.configure(800, 600), Some(config(800, 600)));
    assert!(surface.is_configured());
    assert_eq!(surface.config(), config(800, 600));
}

#[test]
fn surface_choice_prefers_first_srgb_format() {
    assert_eq!(
        choose_surface(&vec![false, true, true], 3, 2),
        Some(SurfaceChoice { format: 1, present_mode: 0, alpha_mode: 0 })
    );
    assert_eq!(
        choose_surface(&vec![false, false], 1, 1),
        Some(SurfaceChoice { format: 0, present_mode: 0, alpha_mode: 0 })
    );
    assert_eq!(choose_surface(&vec![], 1, 1), None);
    assert_eq!(choose_surface(&vec![true], 0, 1), None);
    assert_eq!(choose_surface(&vec![true], 1, 0), None);
}

#[test]
fn vertex_layout_matches_position_then_color() {
    let layout = vertex_layout();
    assert_eq!(layout.array_stride, 24);
    assert_eq!(layout.step_mode, StepMode::Vertex);
    assert_eq!(
        layout.attributes,
        vec![
            VertexAttribute { offset: 0, shader_location: 0, format: VertexFormat::Float32x3 },
            VertexAttribute { offset: 12, shader_location: 1, format: VertexFormat::Float32x3 },
        ]
    );
    assert_eq!(VertexFormat::Float32x3.size(), 12);
    assert_eq!(std::mem::size_of::<[[f32; 3]; 2]>() as u64, layout.array_stride);
}

#[test]
fn pipeline_state_is_fixed() {
    let p = pipeline_state();
    assert_eq!(p.vertex_entry, "vs_main");
    assert_eq!(p.fragment_entry, "fs_main");
    assert_eq!(p.topology, Topology::TriangleList);
    assert_eq!(p.front_face, FrontFace::Ccw);
    assert_eq!(p.cull_mode, CullMode::Back);
    assert_eq!(p.polygon_mode, PolygonMode::Fill);
    assert_eq!(p.sample_count, 1);
    assert_eq!(p.sample_mask, u64::MAX);
    assert!(!p.alpha_to_coverage);
    assert!(!p.depth_stencil);
    assert!(p.blend_replace);
    assert!(p.write_all_channels);
}

#[test]
fn update_changes_nothing() {
    let mut state = State::new(800, 600, pentagon());
    state.resize(640, 480);
    state.update();
    assert_eq!(state.config(), config(640, 480));
    assert!(state.is_surface_configured());
    assert_eq!(state.draw_mode(), DrawMode::Indexed);
}
