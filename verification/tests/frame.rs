use trips::{
    handle_acquire_error, DrawCommand, FrameAction, Geometry, Position, Renderer, Scene,
    SurfaceError, BACKGROUND_A_BITS, BACKGROUND_B_BITS, BACKGROUND_G_BITS, BACKGROUND_R_BITS,
};

fn pos(x: f32, y: f32, z: f32) -> Position {
    Position { x_bits: x.to_bits(), y_bits: y.to_bits(), z_bits: z.to_bits() }
}

fn geometry(vertices: usize, indices: usize) -> Geometry {
    Geometry {
        vertex_positions: (0..vertices).map(|i| pos(i as f32, 0.0, 0.0)).collect(),
        indices: (0..indices as u32).map(|i| i % vertices.max(1) as u32).collect(),
    }
}

#[test]
fn empty_scene_draws_cleared_frame() {
    let renderer = Renderer::new(800, 600);
    let scene = Scene { meshes: Vec::new() };
    let frame = renderer.draw(&scene, Ok(())).expect("an empty scene draws without error");

    // A cleared frame: the pass clears to the fixed background color and
    // only binds the shared buffers; no draw call is issued.
    assert_eq!(frame.clear_color.r_bits, (0.1f32).to_bits());
    assert_eq!(frame.clear_color.g_bits, (0.2f32).to_bits());
    assert_eq!(frame.clear_color.b_bits, (0.3f32).to_bits());
    assert_eq!(frame.clear_color.a_bits, (1.0f32).to_bits());
    assert_eq!(
        frame.commands,
        vec![DrawCommand::SetVertexBuffer, DrawCommand::SetIndexBuffer]
    );
}

#[test]
fn background_color_bits_match_floats() {
    assert_eq!(BACKGROUND_R_BITS, (0.1f32).to_bits());
    assert_eq!(BACKGROUND_G_BITS, (0.2f32).to_bits());
    assert_eq!(BACKGROUND_B_BITS, (0.3f32).to_bits());
    assert_eq!(BACKGROUND_A_BITS, (1.0f32).to_bits());
}

#[test]
fn n_meshes_produce_n_indexed_draws() {
    let mut renderer = Renderer::new(800, 600);
    let sizes = [(4usize, 6usize), (3, 3), (5, 9)];
    let mut meshes = Vec::new();
    for (v, i) in sizes {
        meshes.push(renderer.load_mesh(geometry(v, i)).expect("fits"));
    }

    let scene = Scene { meshes: meshes.clone() };
    let frame = renderer.draw(&scene, Ok(())).expect("scene draws");

    let draws: Vec<&DrawCommand> = frame
        .commands
        .iter()
        .filter(|c| matches!(c, DrawCommand::DrawIndexed { .. }))
        .collect();
    assert_eq!(draws.len(), sizes.len());

    // Each draw covers exactly that mesh's index count, begins at the
    // cumulative index count before it, and rebases vertices to the
    // cumulative vertex count before it.
    let mut vertex_total = 0i32;
    let mut index_total = 0u32;
    for (k, (v, i)) in sizes.iter().enumerate() {
        match draws[k] {
            DrawCommand::DrawIndexed { first_index, index_count, base_vertex } => {
                assert_eq!(*index_count, *i as u32);
                assert_eq!(*first_index, index_total);
                assert_eq!(*base_vertex, vertex_total);
            }
            _ => unreachable!(),
        }
        vertex_total += *v as i32;
        index_total += *i as u32;
    }
}

#[test]
fn draw_order_is_scene_order() {
    let mut renderer = Renderer::new(320, 200);
    let a = renderer.load_mesh(geometry(2, 3)).expect("fits");
    let b = renderer.load_mesh(geometry(2, 6)).expect("fits");

    // The scene decides the order, not the arena: b first, then a.
    let scene = Scene { meshes: vec![b, a] };
    let frame = renderer.draw(&scene, Ok(())).expect("scene draws");

    let counts: Vec<u32> = frame
        .commands
        .iter()
        .filter_map(|c| match c {
            DrawCommand::DrawIndexed { index_count, .. } => Some(*index_count),
            _ => None,
        })
        .collect();
    assert_eq!(counts, vec![6, 3]);
}

#[test]
fn per_mesh_commands_bind_pipeline_and_material() {
    let mut renderer = Renderer::new(800, 600);
    let mesh = renderer.load_mesh(geometry(3, 3)).expect("fits");
    let scene = Scene { meshes: vec![mesh] };
    let frame = renderer.draw(&scene, Ok(())).expect("scene draws");

    // Arena buffers bound once, then per mesh: pipeline, bind group, draw.
    assert_eq!(frame.commands.len(), 5);
    assert!(matches!(frame.commands[0], DrawCommand::SetVertexBuffer));
    assert!(matches!(frame.commands[1], DrawCommand::SetIndexBuffer));
    assert!(matches!(frame.commands[2], DrawCommand::SetPipeline { pipeline_slot: 0 }));
    assert!(
        matches!(frame.commands[3], DrawCommand::SetBindGroup { material_handle: 0 })
    );
    assert!(matches!(frame.commands[4], DrawCommand::DrawIndexed { .. }));
}

#[test]
fn acquire_failure_propagates_to_caller() {
    let renderer = Renderer::new(800, 600);
    let scene = Scene { meshes: Vec::new() };
    assert_eq!(renderer.draw(&scene, Err(SurfaceError::Lost)), Err(SurfaceError::Lost));
    assert_eq!(
        renderer.draw(&scene, Err(SurfaceError::OutOfMemory)),
        Err(SurfaceError::OutOfMemory)
    );
}

#[test]
fn acquire_policy_decides_rebuild_skip_or_exit() {
    assert_eq!(handle_acquire_error(SurfaceError::Lost), FrameAction::RebuildSurface);
    assert_eq!(handle_acquire_error(SurfaceError::OutOfMemory), FrameAction::Exit);
    assert_eq!(handle_acquire_error(SurfaceError::Outdated), FrameAction::SkipFrame);
    assert_eq!(handle_acquire_error(SurfaceError::Timeout), FrameAction::SkipFrame);
    assert_eq!(handle_acquire_error(SurfaceError::Other), FrameAction::SkipFrame);
}

#[test]
fn resize_to_same_dimensions_is_idempotent() {
    let mut renderer = Renderer::new(800, 600);
    renderer.resize(1024, 768);
    let after_first = renderer.state;
    renderer.resize(1024, 768);
    assert_eq!(renderer.state, after_first);
    assert_eq!(renderer.state.width, 1024);
    assert_eq!(renderer.state.height, 768);

    // The surface stays drawable: a draw after the double resize succeeds.
    let scene = Scene { meshes: Vec::new() };
    assert!(renderer.draw(&scene, Ok(())).is_ok());
}

#[test]
fn rebuild_swapchain_keeps_configuration() {
    let mut renderer = Renderer::new(800, 600);
    renderer.resize(400, 300);
    renderer.rebuild_swapchain();
    assert_eq!(renderer.state.width, 400);
    assert_eq!(renderer.state.height, 300);
}
