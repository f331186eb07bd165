use trips::{
    Buffer, BufferRange, DrawCommand, FrameCommands, Geometry, GeometryHandle, GeometryStore,
    Light, Material, MaterialType, Mesh, Object, ObjectType, Position, RenderProperties, Rgba,
    SurfaceState,
};

fn black() -> Rgba {
    Rgba { r_bits: 0, g_bits: 0, b_bits: 0, a_bits: (1.0f32).to_bits() }
}

#[test]
fn buffer_write_advances_both_cursors() {
    let mut buffer = Buffer::new(100, 12);
    let first = buffer.write(4);
    let second = buffer.write(6);

    assert_eq!(first, BufferRange { start: 0, size: 4 });
    assert_eq!(second, BufferRange { start: 4, size: 6 });
    assert_eq!(buffer.idx_offset, 10);
    assert_eq!(buffer.buffer_offset, 120);
}

#[test]
fn mesh_render_records_its_draw() {
    let geometry = GeometryHandle {
        vertex_position_range: BufferRange { start: 7, size: 4 },
        indices_range: BufferRange { start: 20, size: 9 },
        geometry_idx: 2,
    };
    let material = Material {
        material_handle: 3,
        material_type: MaterialType::SolidColorMaterial,
        render_properties: RenderProperties { albedo: black() },
    };
    let mesh = Mesh::new(geometry, material);
    assert_eq!(mesh.geometry, geometry);
    assert_eq!(mesh.material, material);

    let mut pass = FrameCommands { clear_color: black(), commands: Vec::new() };
    mesh.render(&mut pass);
    assert_eq!(
        pass.commands,
        vec![DrawCommand::DrawIndexed { first_index: 20, index_count: 9, base_vertex: 7 }]
    );
}

#[test]
fn set_geometry_buffers_binds_both_arena_buffers() {
    let store = GeometryStore::new();
    let mut pass = FrameCommands { clear_color: black(), commands: Vec::new() };
    store.set_geometry_buffers(&mut pass);
    assert_eq!(
        pass.commands,
        vec![DrawCommand::SetVertexBuffer, DrawCommand::SetIndexBuffer]
    );
}

#[test]
fn get_geometry_data_returns_the_stored_mesh() {
    let mut store = GeometryStore::new();
    let g = Geometry {
        vertex_positions: vec![Position { x_bits: 10, y_bits: 20, z_bits: 30 }],
        indices: vec![0, 0, 0],
    };
    let expected = g.clone();
    let handle = store.load_mesh(g).expect("fits");
    assert_eq!(*store.get_geometry_data(&handle), expected);
}

#[test]
fn surface_state_adopts_new_dimensions() {
    let mut state = SurfaceState::new(100, 50);
    state.resize(300, 200);
    assert_eq!(state, SurfaceState { width: 300, height: 200 });
}

#[test]
fn objects_tag_their_variant() {
    let mesh = Mesh::new(
        GeometryHandle {
            vertex_position_range: BufferRange { start: 0, size: 1 },
            indices_range: BufferRange { start: 0, size: 3 },
            geometry_idx: 0,
        },
        Material {
            material_handle: 0,
            material_type: MaterialType::SolidColorMaterial,
            render_properties: RenderProperties { albedo: black() },
        },
    );
    let drawable = Object { object_type: ObjectType::Mesh(mesh) };
    let light = Object { object_type: ObjectType::Light(Light {}) };
    assert!(matches!(drawable.object_type, ObjectType::Mesh(m) if m == mesh));
    assert!(matches!(light.object_type, ObjectType::Light(_)));
}
