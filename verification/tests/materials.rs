use trips::{
    Geometry, MaterialType, PipelineType, Position, RenderProperties, Renderer, Rgba,
    ShaderStore, ShaderType, SolidColorMaterial,
};

fn rgba(r: f32, g: f32, b: f32, a: f32) -> Rgba {
    Rgba {
        r_bits: r.to_bits(),
        g_bits: g.to_bits(),
        b_bits: b.to_bits(),
        a_bits: a.to_bits(),
    }
}

#[test]
fn material_pipeline_always_resolves() {
    let mut renderer = Renderer::new(800, 600);
    // For every material type in the closed enumeration, a created
    // material's pipeline id resolves to a registered cache entry.
    for material_type in [MaterialType::SolidColorMaterial] {
        let material = renderer.create_material(
            material_type,
            RenderProperties { albedo: rgba(0.5, 0.25, 0.125, 1.0) },
        );
        let pipeline_id = material.get_pipeline_id();
        let slot = renderer.pipeline_store.get(pipeline_id);
        assert_eq!(renderer.pipeline_store.store[slot].pipeline_type, pipeline_id);
    }
}

#[test]
fn material_payload_recorded_verbatim() {
    let mut renderer = Renderer::new(800, 600);
    let props = RenderProperties { albedo: rgba(0.75, 0.0, -0.5, 0.125) };
    let material = renderer.create_material(MaterialType::SolidColorMaterial, props);

    assert_eq!(material.material_handle, 0);
    assert_eq!(material.material_type, MaterialType::SolidColorMaterial);
    assert_eq!(material.render_properties, props);

    // The table grew by one and holds the payload bit for bit.
    assert_eq!(renderer.material_buffers.len(), 1);
    assert_eq!(renderer.material_buffers[0].uniform_data, props);
    assert_eq!(renderer.material_buffers[0].layout.binding, 0);
    assert!(renderer.material_buffers[0].layout.fragment_visible);
}

#[test]
fn material_table_only_grows() {
    let mut renderer = Renderer::new(800, 600);
    let first = renderer.create_material(
        MaterialType::SolidColorMaterial,
        RenderProperties { albedo: rgba(1.0, 0.0, 0.0, 1.0) },
    );
    let second = renderer.create_material(
        MaterialType::SolidColorMaterial,
        RenderProperties { albedo: rgba(0.0, 1.0, 0.0, 1.0) },
    );
    assert_eq!(first.material_handle, 0);
    assert_eq!(second.material_handle, 1);
    assert_eq!(renderer.material_buffers.len(), 2);
    assert_eq!(
        renderer.material_buffers[0].uniform_data.albedo,
        rgba(1.0, 0.0, 0.0, 1.0)
    );
}

#[test]
fn pipeline_descriptor_matches_archetype() {
    let renderer = Renderer::new(800, 600);
    assert_eq!(renderer.pipeline_store.store.len(), 1);
    let entry = &renderer.pipeline_store.store[0];
    assert_eq!(entry.pipeline_type, PipelineType::SolidColorMaterial);

    let desc = &entry.desc;
    // Vertex stage: position-only, stride of one three-component float
    // vector, attribute at offset zero, shader location zero.
    assert_eq!(desc.vertex_stride, 12);
    assert_eq!(desc.vertex_attribute_offset, 0);
    assert_eq!(desc.vertex_attribute_location, 0);
    // Fixed-function state: back-face culling, no depth/stencil, one sample.
    assert!(desc.cull_back_faces);
    assert!(!desc.has_depth_stencil);
    assert_eq!(desc.sample_count, 1);
    // One uniform bind-group layout: binding zero, fragment-visible.
    assert_eq!(desc.bind_group_layouts.len(), 1);
    assert_eq!(desc.bind_group_layouts[0].binding, 0);
    assert!(desc.bind_group_layouts[0].fragment_visible);

    // The shader slots resolve to the archetype's shaders.
    assert_eq!(
        renderer.shader_store.store[desc.vertex_shader_slot],
        ShaderType::BasicVert
    );
    let frag = desc.fragment_shader_slot.expect("solid color has a fragment stage");
    assert_eq!(renderer.shader_store.store[frag], ShaderType::BasicFrag);
}

#[test]
fn pipeline_config_of_solid_color() {
    let config = SolidColorMaterial::get_pipeline_config();
    assert_eq!(config.vert_shader, ShaderType::BasicVert);
    assert_eq!(config.frag_shader, Some(ShaderType::BasicFrag));
    let layout = config.uniform_buffer_layout.expect("solid color has a uniform layout");
    assert_eq!(layout.binding, 0);
    assert!(layout.fragment_visible);
}

#[test]
fn shader_store_registers_every_shader_once() {
    let shaders = ShaderStore::new();
    assert_eq!(shaders.store, vec![ShaderType::BasicVert, ShaderType::BasicFrag]);
    let vert = shaders.get(ShaderType::BasicVert);
    let frag = shaders.get(ShaderType::BasicFrag);
    assert_ne!(vert, frag);
    assert_eq!(shaders.store[vert], ShaderType::BasicVert);
    assert_eq!(shaders.store[frag], ShaderType::BasicFrag);
}

#[test]
fn loaded_mesh_gets_default_albedo() {
    let mut renderer = Renderer::new(800, 600);
    let mesh = renderer
        .load_mesh(Geometry {
            vertex_positions: vec![Position {
                x_bits: (1.0f32).to_bits(),
                y_bits: 0,
                z_bits: 0,
            }],
            indices: vec![0, 0, 0],
        })
        .expect("fits");

    // The default albedo is opaque yellow.
    assert_eq!(mesh.material.render_properties.albedo, rgba(1.0, 1.0, 0.0, 1.0));
    assert_eq!(mesh.material.material_type, MaterialType::SolidColorMaterial);
    assert_eq!(renderer.material_buffers.len(), 1);
}
