//! The buffers and their layout, the shader-outcome logic, and the
//! render-loop state machine.

use webgl_demos::geometry::cube_index_data;
use webgl_demos::geometry::cube_position_attribute;
use webgl_demos::geometry::cube_texcoord_attribute;
use webgl_demos::geometry::cube_vertex_at;
use webgl_demos::geometry::cube_vertex_data;
use webgl_demos::geometry::triangle_color_attribute;
use webgl_demos::geometry::triangle_position_attribute;
use webgl_demos::geometry::triangle_vertex_data;
use webgl_demos::pipeline::compile_shader;
use webgl_demos::pipeline::link_program;
use webgl_demos::pipeline::resolve_cube_locations;
use webgl_demos::pipeline::resolve_triangle_locations;
use webgl_demos::pipeline::CompiledShader;
use webgl_demos::pipeline::ProgramHandle;
use webgl_demos::pipeline::SetupError;
use webgl_demos::pipeline::ShaderHandle;
use webgl_demos::pipeline::ShaderStage;
use webgl_demos::render::initial_clear_color;
use webgl_demos::render::DemoKind;
use webgl_demos::render::DrawCall;
use webgl_demos::render::LoopState;
use webgl_demos::render::RenderLoop;
use webgl_demos::render::StopReason;
use webgl_demos::texture::texture_params;
use webgl_demos::texture::FilterMode;
use webgl_demos::texture::WrapMode;
use webgl_demos::transform::WorldPhase;

#[test]
fn cube_buffer_interleaves_positions_and_texcoords() {
    let data = cube_vertex_data();
    assert_eq!(data.len(), 120);
    let position = cube_position_attribute();
    let texcoord = cube_texcoord_attribute();
    assert_eq!((position.components, position.offset_bytes, position.stride_bytes), (3, 0, 20));
    assert_eq!((texcoord.components, texcoord.offset_bytes, texcoord.stride_bytes), (2, 12, 20));
    assert!(!position.normalized && !texcoord.normalized);
    for v in 0..24usize {
        let r = cube_vertex_at(v);
        // The slot of component k is (v * stride + offset) / 4 + k.
        let pos_base = (v * 20 + 0) / 4;
        let tex_base = (v * 20 + 12) / 4;
        assert_eq!(pos_base, 5 * v);
        assert_eq!(tex_base, 5 * v + 3);
        assert_eq!(data[pos_base], r.px);
        assert_eq!(data[pos_base + 1], r.py);
        assert_eq!(data[pos_base + 2], r.pz);
        assert_eq!(data[tex_base], r.tu);
        assert_eq!(data[tex_base + 1], r.tv);
    }
}

#[test]
fn cube_vertices_span_the_unit_cube() {
    let data = cube_vertex_data();
    for v in 0..24usize {
        for k in 0..3usize {
            assert!(data[5 * v + k] == 1000 || data[5 * v + k] == -1000);
        }
        for k in 3..5usize {
            assert!(data[5 * v + k] == 0 || data[5 * v + k] == 1000);
        }
    }
}

#[test]
fn cube_indices_in_range_and_counter_clockwise() {
    let indices = cube_index_data();
    assert_eq!(indices.len(), 36);
    for &i in indices.iter() {
        assert!((i as usize) < 24);
    }
    for t in 0..12usize {
        let a = cube_vertex_at(indices[3 * t] as usize);
        let b = cube_vertex_at(indices[3 * t + 1] as usize);
        let c = cube_vertex_at(indices[3 * t + 2] as usize);
        let (ux, uy, uz) = (
            (b.px - a.px) as i64,
            (b.py - a.py) as i64,
            (b.pz - a.pz) as i64,
        );
        let (vx, vy, vz) = (
            (c.px - a.px) as i64,
            (c.py - a.py) as i64,
            (c.pz - a.pz) as i64,
        );
        let nx = uy * vz - uz * vy;
        let ny = uz * vx - ux * vz;
        let nz = ux * vy - uy * vx;
        // The loop normal points to the same side as the face: counter-
        // clockwise seen from outside the cube.
        let dot = nx * a.px as i64 + ny * a.py as i64 + nz * a.pz as i64;
        assert!(dot > 0, "triangle {} winds clockwise", t);
    }
}

#[test]
fn triangle_vertex_literals() {
    let data = triangle_vertex_data();
    let expected: Vec<i32> = vec![
        0, 500, 1000, 1000, 0, //
        -500, -500, 700, 0, 1000, //
        500, -500, 100, 1000, 600,
    ];
    assert_eq!(data, expected);
    // The colors the three corners carry, as the shader sees them.
    let mut colors: Vec<f32> = Vec::new();
    for v in 0..3 {
        for k in 2..5 {
            colors.push(data[5 * v + k] as f32 / 1000.0);
        }
    }
    assert_eq!(colors, vec![1.0, 1.0, 0.0, 0.7, 0.0, 1.0, 0.1, 1.0, 0.6]);
    let position = triangle_position_attribute();
    let color = triangle_color_attribute();
    assert_eq!((position.components, position.offset_bytes, position.stride_bytes), (2, 0, 20));
    assert_eq!((color.components, color.offset_bytes, color.stride_bytes), (3, 8, 20));
}

#[test]
fn triangle_demo_draws_three_vertices_once() {
    let mut rl = RenderLoop::new(DemoKind::ColorTriangle, 1500);
    assert!(matches!(rl.state, LoopState::Uninitialized));
    rl.complete_setup(Ok(()));
    assert!(matches!(rl.state, LoopState::Ready));
    let actions = rl.begin();
    assert!(!actions.schedule_first);
    let frame = actions.one_shot_frame.expect("the triangle draws one frame");
    assert_eq!(frame.draw, DrawCall::Arrays { first: 0, count: 3 });
    assert_eq!(frame.set_world, None);
    assert_eq!(frame.bind_texture_unit, None);
    assert!(!frame.schedule_next);
    assert_eq!(
        (frame.clear.red, frame.clear.green, frame.clear.blue, frame.clear.alpha),
        (750, 850, 800, 1000)
    );
    assert_eq!(initial_clear_color(), frame.clear);
    // The demo rests at READY: no animation loop.
    assert!(matches!(rl.state, LoopState::Ready));
}

#[test]
fn texture_sampling_is_clamped_and_linear() {
    let p = texture_params();
    assert_eq!(p.wrap_s, WrapMode::ClampToEdge);
    assert_eq!(p.wrap_t, WrapMode::ClampToEdge);
    assert_eq!(p.min_filter, FilterMode::Linear);
    assert_eq!(p.mag_filter, FilterMode::Linear);
    assert!(!p.generate_mipmaps);
}

#[test]
fn compile_accepts_good_status() {
    let r = compile_shader(ShaderStage::Vertex, Some(ShaderHandle { id: 3 }), Some(true), None);
    let s = r.expect("a created shader with a true status compiles");
    assert_eq!(s.stage, ShaderStage::Vertex);
    assert_eq!(s.handle, ShaderHandle { id: 3 });
}

#[test]
fn compile_rejects_bad_shader_with_driver_log() {
    let r = compile_shader(
        ShaderStage::Fragment,
        Some(ShaderHandle { id: 4 }),
        Some(false),
        Some("0:3: syntax error".to_owned()),
    );
    match r {
        Err(SetupError::ShaderCompile(log)) => assert_eq!(log, "0:3: syntax error"),
        other => panic!("expected a compile error, got {:?}", other),
    }
}

#[test]
fn compile_rejects_bad_shader_without_log() {
    let r = compile_shader(ShaderStage::Fragment, Some(ShaderHandle { id: 4 }), None, None);
    match r {
        Err(SetupError::ShaderCompile(log)) => {
            assert_eq!(log, "Unknown error creating shader")
        },
        other => panic!("expected a compile error, got {:?}", other),
    }
}

#[test]
fn compile_reports_allocation_failure() {
    let r = compile_shader(ShaderStage::Vertex, None, Some(true), None);
    match r {
        Err(SetupError::ResourceCreation(m)) => {
            assert_eq!(m, "Unable to create shader object")
        },
        other => panic!("expected an allocation error, got {:?}", other),
    }
}

#[test]
fn link_joins_both_stages() {
    let vert = CompiledShader { stage: ShaderStage::Vertex, handle: ShaderHandle { id: 1 } };
    let frag = CompiledShader { stage: ShaderStage::Fragment, handle: ShaderHandle { id: 2 } };
    let r = link_program(&vert, &frag, Some(ProgramHandle { id: 9 }), Some(true), None);
    let p = r.expect("a created program with a true status links");
    assert_eq!(p.handle, ProgramHandle { id: 9 });
    assert_eq!(p.vertex_shader, ShaderHandle { id: 1 });
    assert_eq!(p.fragment_shader, ShaderHandle { id: 2 });
}

#[test]
fn link_reports_driver_log_and_fallback() {
    let vert = CompiledShader { stage: ShaderStage::Vertex, handle: ShaderHandle { id: 1 } };
    let frag = CompiledShader { stage: ShaderStage::Fragment, handle: ShaderHandle { id: 2 } };
    let r = link_program(
        &vert,
        &frag,
        Some(ProgramHandle { id: 9 }),
        Some(false),
        Some("varying mismatch".to_owned()),
    );
    match r {
        Err(SetupError::ProgramLink(log)) => assert_eq!(log, "varying mismatch"),
        other => panic!("expected a link error, got {:?}", other),
    }
    let r = link_program(&vert, &frag, Some(ProgramHandle { id: 9 }), None, None);
    match r {
        Err(SetupError::ProgramLink(log)) => {
            assert_eq!(log, "Unknown error creating program object")
        },
        other => panic!("expected a link error, got {:?}", other),
    }
    let r = link_program(&vert, &frag, None, Some(true), None);
    match r {
        Err(SetupError::ResourceCreation(m)) => {
            assert_eq!(m, "Unable to create shader object")
        },
        other => panic!("expected an allocation error, got {:?}", other),
    }
}

#[test]
fn locations_resolve_exactly_when_every_name_is_active() {
    let l = resolve_cube_locations(0, 1, true, true, true).expect("all names active");
    assert_eq!((l.position, l.texcoord), (0, 1));
    assert!(resolve_cube_locations(-1, 1, true, true, true).is_none());
    assert!(resolve_cube_locations(0, -1, true, true, true).is_none());
    assert!(resolve_cube_locations(0, 1, false, true, true).is_none());
    assert!(resolve_cube_locations(0, 1, true, false, true).is_none());
    assert!(resolve_cube_locations(0, 1, true, true, false).is_none());
    let l = resolve_triangle_locations(2, 5).expect("both names active");
    assert_eq!((l.position, l.color), (2, 5));
    assert!(resolve_triangle_locations(-1, 0).is_none());
    assert!(resolve_triangle_locations(0, -1).is_none());
}

#[test]
fn cube_loop_runs_and_rearms_each_frame() {
    let mut rl = RenderLoop::new(DemoKind::TexturedCube, 1778);
    rl.complete_setup(Ok(()));
    let actions = rl.begin();
    assert!(actions.schedule_first);
    assert!(actions.one_shot_frame.is_none());
    assert!(matches!(rl.state, LoopState::Running));
    let frame = rl.on_frame(0);
    assert_eq!(frame.set_world, Some(WorldPhase { y_ms: 0, x_ms: 0 }));
    assert_eq!(frame.draw, DrawCall::Elements { count: 36 });
    assert_eq!(frame.bind_texture_unit, Some(0));
    assert!(frame.schedule_next);
    let frame = rl.on_frame(4500);
    assert_eq!(frame.set_world, Some(WorldPhase { y_ms: 4500, x_ms: 4500 }));
    assert!(frame.schedule_next);
    assert!(matches!(rl.state, LoopState::Running));
}

#[test]
fn setup_failure_stops_the_loop_before_it_starts() {
    let mut rl = RenderLoop::new(DemoKind::TexturedCube, 1000);
    rl.complete_setup(Err(SetupError::ShaderCompile("0:1: bad token".to_owned())));
    match &rl.state {
        LoopState::Stopped(StopReason::Setup(SetupError::ShaderCompile(log))) => {
            assert_eq!(log, "0:1: bad token")
        },
        other => panic!("expected a stopped loop, got {:?}", other),
    }
}

#[test]
fn host_failure_stops_the_loop_for_good() {
    let mut rl = RenderLoop::new(DemoKind::TexturedCube, 1000);
    rl.complete_setup(Ok(()));
    rl.begin();
    rl.stop("context lost".to_owned());
    match &rl.state {
        LoopState::Stopped(StopReason::Host(m)) => assert_eq!(m, "context lost"),
        other => panic!("expected a stopped loop, got {:?}", other),
    }
}
