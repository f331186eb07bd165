//! A minimal retained-mode rendering core: an append-only geometry arena
//! shared by all meshes, deduplicated shader and pipeline caches keyed by a
//! closed material enumeration, a flat material table, and per-frame draw
//! planning that turns a scene into the exact list of GPU commands to
//! record.
//!
//! The GPU device, window surface and mesh files live outside this crate;
//! the host hands in plain values (raw position and index arrays, surface
//! sizes, frame-acquire outcomes) and carries the planned commands to the
//! device.

use vstd::prelude::*;

mod commands;
mod geometry;
mod materials;
mod mesh;
mod object;
mod pipelines;
mod scene;
mod surface;
mod shaders;

pub use commands::{
    background_color, indexed_draws, lemma_indexed_draws_add, DrawCommand, FrameCommands,
    BACKGROUND_A_BITS, BACKGROUND_B_BITS, BACKGROUND_G_BITS, BACKGROUND_R_BITS,
};
pub use geometry::{
    index_start, lemma_ranges_disjoint, lemma_ranges_tile, lemma_round_trip,
    lemma_start_bounded, total_indices, total_vertices, vertex_start, Buffer, BufferRange,
    Geometry, GeometryHandle, GeometryStore, Position, INDEX_SIZE, POSITION_SIZE,
    STARTING_INDICES, STARTING_VERTICES,
};
pub use materials::{
    pipeline_id, Material, MaterialBuffers, MaterialHandle, MaterialType, Rgba,
    RenderProperties, SolidColorMaterial,
};
pub use mesh::{mesh_draw, Mesh};
pub use object::{Light, Object, ObjectType};
pub use pipelines::{
    PipelineConfig, PipelineDesc, PipelineEntry, PipelineStore, PipelineType, UniformLayoutDesc,
};
pub use scene::Scene;
pub use surface::{
    handle_acquire_error, lemma_resize_idempotent, FrameAction, SurfaceError, SurfaceState,
};
pub use shaders::{ShaderStore, ShaderType};

use materials::solid_color_material::{solid_color_config, uniform_layout};
use pipelines::desc_obeys_config;
use surface::resized;

verus! {

/// Errors raised while loading assets into the renderer.
///
/// `AssetLoad` marks a missing or malformed mesh file (fatal to that load
/// call, recoverable by the caller); `CapacityExceeded` marks an append
/// that would overflow the arena's fixed allocation.
#[derive(Debug, Clone, Copy, PartialEq, Eq, Structural)]
pub enum RenderError {
    AssetLoad,
    CapacityExceeded,
}

/// Bit pattern of a float component equal to one; the default albedo of a
/// freshly loaded mesh is an opaque yellow built from it.
pub const F32_ONE_BITS: u32 = 0x3F800000;

/// The albedo a freshly loaded mesh starts with.
pub open spec fn default_render_properties() -> RenderProperties {
    RenderProperties {
        albedo: Rgba {
            r_bits: F32_ONE_BITS,
            g_bits: F32_ONE_BITS,
            b_bits: 0,
            a_bits: F32_ONE_BITS,
        },
    }
}

/// The commands that open every frame: bind the shared arena buffers once
/// per render pass, before any mesh is drawn.
pub open spec fn frame_prelude() -> Seq<DrawCommand> {
    seq![DrawCommand::SetVertexBuffer, DrawCommand::SetIndexBuffer]
}

/// The commands one mesh contributes, in order: bind the pipeline of its
/// material's archetype, bind its material's uniform bind group, then issue
/// its indexed draw.
pub open spec fn mesh_commands(pipelines: PipelineStore, m: Mesh) -> Seq<DrawCommand> {
    seq![
        DrawCommand::SetPipeline {
            pipeline_slot: pipelines.slot_spec(pipeline_id(m.material.material_type)) as usize,
        },
        DrawCommand::SetBindGroup { material_handle: m.material.material_handle },
        mesh_draw(m),
    ]
}

/// The commands of a whole scene: each mesh's commands, in scene order —
/// scene order is draw order.
pub open spec fn scene_commands(pipelines: PipelineStore, meshes: Seq<Mesh>) -> Seq<DrawCommand>
    decreases meshes.len(),
{
    if meshes.len() == 0 {
        Seq::empty()
    } else {
        scene_commands(pipelines, meshes.drop_last()) + mesh_commands(pipelines, meshes.last())
    }
}

/// The renderer: the surface configuration, the shader and pipeline
/// caches, the material-buffer table and the geometry arena.  All GPU
/// resources are owned here for the renderer's whole lifetime; mesh and
/// material values merely hold handles into these tables.
pub struct Renderer {
    pub state: SurfaceState,
    pub shader_store: ShaderStore,
    pub pipeline_store: PipelineStore,
    pub material_buffers: Vec<MaterialBuffers>,
    pub geometry_store: GeometryStore,
}

impl Renderer {
    /// The caches are well-formed and fully registered, and the arena's
    /// cursors agree with its retained data.
    pub open spec fn wf(self) -> bool {
        &&& self.shader_store.wf()
        &&& self.shader_store.complete()
        &&& self.pipeline_store.wf()
        &&& self.pipeline_store.complete()
        &&& self.geometry_store.wf()
    }

    /// The mesh's handles point into this renderer's tables: its geometry
    /// handle describes ranges the arena really handed out, and its
    /// material handle indexes the material-buffer table.
    pub open spec fn mesh_ok(self, m: Mesh) -> bool {
        &&& self.geometry_store.valid_handle(m.geometry)
        &&& m.material.material_handle < self.material_buffers@.len()
    }

    /// Every mesh of the scene is drawable against this renderer.
    pub open spec fn scene_ok(self, scene: Scene) -> bool {
        forall|k: int| 0 <= k < scene.meshes@.len() ==> self.mesh_ok(#[trigger] scene.meshes@[k])
    }

    /// Builds a renderer for a surface of the given physical size: loads
    /// every shader, builds one pipeline per material archetype, and
    /// allocates the empty shared arena.
    pub fn new(width: u32, height: u32) -> (r: Self)
        ensures
            r.wf(),
            r.state == (SurfaceState { width, height }),
            r.material_buffers@.len() == 0,
            r.geometry_store.geometries@.len() == 0,
            r.geometry_store.vertex_positions.capacity == STARTING_VERTICES,
            r.geometry_store.indices.capacity == STARTING_INDICES,
            r.pipeline_store.store@.len() == 1,
            r.pipeline_store.store@[0].pipeline_type == PipelineType::SolidColorMaterial,
            desc_obeys_config(
                r.pipeline_store.store@[0].desc,
                r.shader_store.store@,
                solid_color_config(),
            ),
    {
        let state = SurfaceState::new(width, height);
        let shader_store = ShaderStore::new();
        let pipeline_store = PipelineStore::new(&shader_store);
        let geometry_store = GeometryStore::new();

        Renderer {
            state,
            shader_store,
            pipeline_store,
            material_buffers: Vec::new(),
            geometry_store,
        }
    }

    /// Reconfigures the swap surface with the current dimensions, after
    /// the host reported it lost.  The configuration itself is unchanged.
    pub fn rebuild_swapchain(&mut self)
        ensures
            *final(self) == *old(self),
    {
        let width = self.state.width;
        let height = self.state.height;
        self.state.resize(width, height);
    }

    /// Adopts a new surface size.  Must be called whenever the host window
    /// reports a size change, including scale-factor changes, before the
    /// next draw.
    pub fn resize(&mut self, width: u32, height: u32)
        ensures
            final(self).state == resized(old(self).state, width, height),
            final(self).shader_store == old(self).shader_store,
            final(self).pipeline_store == old(self).pipeline_store,
            final(self).material_buffers == old(self).material_buffers,
            final(self).geometry_store == old(self).geometry_store,
    {
        self.state.resize(width, height);
    }

    /// A per-frame extension point; does nothing today.
    pub fn update(&mut self)
        ensures
            *final(self) == *old(self),
    {
    }

    /// Plans one frame.  `acquired` is the outcome of the host's attempt
    /// to acquire the next presentable image: a failure is returned to the
    /// caller unchanged (the caller decides between rebuild, retry and
    /// exit); on success the plan is one render pass cleared to the fixed
    /// background color, the shared arena buffers bound once, and then,
    /// for each mesh in scene order, its pipeline bind, its uniform bind
    /// and its indexed draw.
    pub fn draw(&self, scene: &Scene, acquired: Result<(), SurfaceError>) -> (r: Result<
        FrameCommands,
        SurfaceError,
    >)
        requires
            self.wf(),
            acquired is Ok ==> self.scene_ok(*scene),
        ensures
            acquired matches Err(e) ==> r == Err::<FrameCommands, SurfaceError>(e),
            acquired is Ok ==> (r matches Ok(fc) && {
                &&& fc.clear_color == background_color()
                &&& fc.commands@ == frame_prelude() + scene_commands(
                    self.pipeline_store,
                    scene.meshes@,
                )
            }),
    {
        if let Err(e) = acquired {
            return Err(e);
        }

        let mut render_pass = FrameCommands {
            clear_color: Rgba {
                r_bits: BACKGROUND_R_BITS,
                g_bits: BACKGROUND_G_BITS,
                b_bits: BACKGROUND_B_BITS,
                a_bits: BACKGROUND_A_BITS,
            },
            commands: Vec::new(),
        };

        self.geometry_store.set_geometry_buffers(&mut render_pass);
        proof {
            assert(render_pass.commands@ =~= frame_prelude() + scene_commands(
                self.pipeline_store,
                scene.meshes@.subrange(0, 0),
            ));
        }

        let mut k: usize = 0;
        while k < scene.meshes.len()
            invariant
                self.wf(),
                self.scene_ok(*scene),
                k <= scene.meshes@.len(),
                render_pass.clear_color == background_color(),
                render_pass.commands@ == frame_prelude() + scene_commands(
                    self.pipeline_store,
                    scene.meshes@.subrange(0, k as int),
                ),
            decreases scene.meshes@.len() - k,
        {
            let m = &scene.meshes[k];
            let material_buffers = &self.material_buffers[m.material.material_handle];
            let pipeline_slot = self.pipeline_store.get(m.material.get_pipeline_id());
            render_pass.commands.push(DrawCommand::SetPipeline { pipeline_slot });
            render_pass.commands.push(DrawCommand::SetBindGroup {
                material_handle: m.material.material_handle,
            });
            proof {
                geometry::lemma_start_bounded(
                    self.geometry_store.geometries@,
                    m.geometry.geometry_idx as int,
                );
                geometry::lemma_total_nonneg(
                    self.geometry_store.geometries@.subrange(0, m.geometry.geometry_idx as int),
                );
            }
            m.render(&mut render_pass);
            proof {
                let meshes = scene.meshes@;
                assert(meshes.subrange(0, k + 1).drop_last() =~= meshes.subrange(0, k as int));
                assert(meshes.subrange(0, k + 1).last() == meshes[k as int]);
                assert(render_pass.commands@ =~= frame_prelude() + scene_commands(
                    self.pipeline_store,
                    meshes.subrange(0, k + 1),
                ));
            }
            k = k + 1;
        }
        proof {
            assert(scene.meshes@.subrange(0, scene.meshes@.len() as int) =~= scene.meshes@);
        }
        Ok(render_pass)
    }

    /// Creates one material instance: builds its GPU-side buffer
    /// description, appends it to the material table (the table only ever
    /// grows), and returns a material holding the new table slot.  The
    /// payload is recorded verbatim; its archetype's pipeline is already
    /// registered.
    pub fn create_material(
        &mut self,
        material_type: MaterialType,
        render_properties: RenderProperties,
    ) -> (m: Material)
        requires
            old(self).wf(),
        ensures
            final(self).wf(),
            final(self).material_buffers@ == old(self).material_buffers@.push(
                MaterialBuffers { uniform_data: render_properties, layout: uniform_layout() },
            ),
            m.material_handle == old(self).material_buffers@.len(),
            m.material_type == material_type,
            m.render_properties == render_properties,
            final(self).pipeline_store.registered(pipeline_id(m.material_type)),
            final(self).state == old(self).state,
            final(self).shader_store == old(self).shader_store,
            final(self).pipeline_store == old(self).pipeline_store,
            final(self).geometry_store == old(self).geometry_store,
    {
        let material_buffers = Material::create_buffers(&material_type, &render_properties);
        self.material_buffers.push(material_buffers);
        Material::new(self.material_buffers.len() - 1, material_type, render_properties)
    }

    /// Loads one mesh's raw geometry into the shared arena and attaches a
    /// fresh solid-color material with the default albedo.  Fails with
    /// `CapacityExceeded`, changing nothing, when the data does not fit
    /// the arena's allocation.
    pub fn load_mesh(&mut self, geometry: Geometry) -> (r: Result<Mesh, RenderError>)
        requires
            old(self).wf(),
        ensures
            final(self).wf(),
            r is Ok <==> old(self).geometry_store.fits(geometry),
            r matches Ok(m) ==> {
                &&& final(self).geometry_store.geometries@
                    == old(self).geometry_store.geometries@.push(geometry)
                &&& final(self).mesh_ok(m)
                &&& m.geometry.geometry_idx == old(self).geometry_store.geometries@.len()
                &&& m.geometry.vertex_position_range.start
                    == old(self).geometry_store.vertex_positions.idx_offset
                &&& m.geometry.vertex_position_range.size == geometry.vertex_positions@.len()
                &&& m.geometry.indices_range.start == old(self).geometry_store.indices.idx_offset
                &&& m.geometry.indices_range.size == geometry.indices@.len()
                &&& m.material.material_type == MaterialType::SolidColorMaterial
                &&& m.material.render_properties == default_render_properties()
                &&& m.material.material_handle == old(self).material_buffers@.len()
                &&& final(self).material_buffers@ == old(self).material_buffers@.push(
                    MaterialBuffers {
                        uniform_data: default_render_properties(),
                        layout: uniform_layout(),
                    },
                )
                &&& forall|h2: GeometryHandle|
                    old(self).geometry_store.valid_handle(h2)
                        ==> final(self).geometry_store.valid_handle(h2)
            },
            r is Err ==> *final(self) == *old(self) && r == Err::<Mesh, RenderError>(
                RenderError::CapacityExceeded,
            ),
            final(self).state == old(self).state,
            final(self).shader_store == old(self).shader_store,
            final(self).pipeline_store == old(self).pipeline_store,
    {
        let geometry_handle = match self.geometry_store.load_mesh(geometry) {
            Ok(h) => h,
            Err(_) => {
                return Err(RenderError::CapacityExceeded);
            },
        };

        let render_properties = RenderProperties {
            albedo: Rgba {
                r_bits: F32_ONE_BITS,
                g_bits: F32_ONE_BITS,
                b_bits: 0,
                a_bits: F32_ONE_BITS,
            },
        };

        let material = self.create_material(MaterialType::SolidColorMaterial, render_properties);
        Ok(Mesh::new(geometry_handle, material))
    }
}

/// Creating a material and asking for its pipeline always resolves to a
/// registered pipeline: for every material of every archetype in the
/// closed enumeration, a well-formed renderer's pipeline cache holds an
/// entry for it, so the lookup never misses.
pub proof fn lemma_material_pipeline_registered(r: Renderer, m: Material)
    requires
        r.wf(),
    ensures
        r.pipeline_store.registered(pipeline_id(m.material_type)),
{
}

/// Drawing a scene of N meshes issues exactly N indexed draw calls, in
/// scene order, and the k-th draw is exactly mesh k's draw: its whole
/// index range, rebased to the start of its vertex range.
pub proof fn lemma_scene_draw_calls(pipelines: PipelineStore, meshes: Seq<Mesh>)
    ensures
        indexed_draws(frame_prelude() + scene_commands(pipelines, meshes)).len() == meshes.len(),
        forall|k: int|
            0 <= k < meshes.len()
                ==> indexed_draws(frame_prelude() + scene_commands(pipelines, meshes))[k]
                == mesh_draw(meshes[k]),
{
    lemma_prelude_no_draws();
    lemma_indexed_draws_add(frame_prelude(), scene_commands(pipelines, meshes));
    lemma_scene_commands_draws(pipelines, meshes);
    assert(indexed_draws(frame_prelude() + scene_commands(pipelines, meshes)) =~= indexed_draws(
        scene_commands(pipelines, meshes),
    ));
}

/// The frame prelude contains no indexed draw.
proof fn lemma_prelude_no_draws()
    ensures
        indexed_draws(frame_prelude()).len() == 0,
{
    let p = frame_prelude();
    assert(p.last() == DrawCommand::SetIndexBuffer);
    assert(indexed_draws(p) == indexed_draws(p.drop_last()));
    let p1 = p.drop_last();
    assert(p1 =~= seq![DrawCommand::SetVertexBuffer]);
    assert(p1.last() == DrawCommand::SetVertexBuffer);
    assert(indexed_draws(p1) == indexed_draws(p1.drop_last()));
    assert(p1.drop_last() =~= Seq::<DrawCommand>::empty());
    assert(indexed_draws(Seq::<DrawCommand>::empty()).len() == 0);
}

/// One mesh's command triple contains exactly its own indexed draw.
proof fn lemma_mesh_commands_draws(pipelines: PipelineStore, m: Mesh)
    ensures
        indexed_draws(mesh_commands(pipelines, m)) =~= seq![mesh_draw(m)],
{
    let mc = mesh_commands(pipelines, m);
    assert(mc.len() == 3);
    assert(mc.last() == mesh_draw(m));
    assert(mc.last() is DrawIndexed);
    assert(indexed_draws(mc) == indexed_draws(mc.drop_last()).push(mc.last()));
    let m2 = mc.drop_last();
    assert(m2.last() == mc[1]);
    assert(m2.last() !is DrawIndexed);
    assert(indexed_draws(m2) == indexed_draws(m2.drop_last()));
    let m1 = m2.drop_last();
    assert(m1.len() == 1);
    assert(m1.last() == mc[0]);
    assert(m1.last() !is DrawIndexed);
    assert(indexed_draws(m1) == indexed_draws(m1.drop_last()));
    assert(m1.drop_last().len() == 0);
    assert(indexed_draws(m1.drop_last()) =~= Seq::<DrawCommand>::empty());
}

/// The draws of a scene's commands are the meshes' draws, in scene order.
proof fn lemma_scene_commands_draws(pipelines: PipelineStore, meshes: Seq<Mesh>)
    ensures
        indexed_draws(scene_commands(pipelines, meshes)) =~= meshes.map_values(
            |m: Mesh| mesh_draw(m),
        ),
    decreases meshes.len(),
{
    if meshes.len() == 0 {
    } else {
        lemma_scene_commands_draws(pipelines, meshes.drop_last());
        lemma_indexed_draws_add(
            scene_commands(pipelines, meshes.drop_last()),
            mesh_commands(pipelines, meshes.last()),
        );
        lemma_mesh_commands_draws(pipelines, meshes.last());
        assert(meshes.map_values(|m: Mesh| mesh_draw(m)) =~= meshes.drop_last().map_values(
            |m: Mesh| mesh_draw(m),
        ).push(mesh_draw(meshes.last())));
    }
}

/// Appending N meshes and drawing them all: the k-th draw's base vertex is
/// the number of vertices appended before mesh k, and its index count and
/// first index are exactly mesh k's index range in the shared buffer.
pub proof fn lemma_draws_match_arena(
    store: GeometryStore,
    pipelines: PipelineStore,
    meshes: Seq<Mesh>,
    k: int,
)
    requires
        store.wf(),
        0 <= k < meshes.len(),
        store.valid_handle(meshes[k].geometry),
        meshes[k].geometry.geometry_idx == k,
    ensures
        indexed_draws(frame_prelude() + scene_commands(pipelines, meshes))[k]
            == (DrawCommand::DrawIndexed {
            first_index: index_start(store.geometries@, k) as u32,
            index_count: store.geometries@[k].indices@.len() as u32,
            base_vertex: vertex_start(store.geometries@, k) as i32,
        }),
{
    lemma_scene_draw_calls(pipelines, meshes);
    geometry::lemma_start_bounded(store.geometries@, k);
    geometry::lemma_total_nonneg(store.geometries@.subrange(0, k));
}

} // verus!
