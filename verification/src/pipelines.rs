//! The pipeline cache: one compiled GPU pipeline per material archetype,
//! keyed by a closed pipeline enumeration and built eagerly at renderer
//! construction.  The cache records, for each entry, the full descriptor the
//! host must hand to the device: shader slots, bind-group layouts, vertex
//! layout and the fixed-function state.

use vstd::prelude::*;

use crate::shaders::{ShaderStore, ShaderType};
use crate::materials::SolidColorMaterial;
use crate::materials::solid_color_material::solid_color_config;

verus! {

/// The single uniform bind-group layout a material archetype may require:
/// one uniform buffer at the given binding, visible to the fragment stage.
#[derive(Debug, Clone, Copy, PartialEq, Eq, Structural)]
pub struct UniformLayoutDesc {
    pub binding: u32,
    pub fragment_visible: bool,
}

/// What a material archetype asks of its pipeline: a vertex shader, an
/// optional fragment shader, and an optional uniform bind-group layout.
#[derive(Debug, Clone, Copy, PartialEq, Eq, Structural)]
pub struct PipelineConfig {
    pub vert_shader: ShaderType,
    pub frag_shader: Option<ShaderType>,
    pub uniform_buffer_layout: Option<UniformLayoutDesc>,
}

/// The closed set of pipeline identities, one per material archetype.
#[derive(Debug, Clone, Copy, PartialEq, Eq, Hash, Structural)]
pub enum PipelineType {
    SolidColorMaterial,
}

/// Everything the host needs to build one GPU pipeline object: which shader
/// slots to bind, the bind-group layouts, the position-only vertex layout
/// (one tightly packed three-component float vector per vertex), and the
/// fixed-function state (triangle list, back-face culling, no depth or
/// stencil, a single sample).
#[derive(Debug, PartialEq, Eq)]
pub struct PipelineDesc {
    pub vertex_shader_slot: usize,
    pub fragment_shader_slot: Option<usize>,
    pub bind_group_layouts: Vec<UniformLayoutDesc>,
    pub vertex_stride: u64,
    pub vertex_attribute_offset: u64,
    pub vertex_attribute_location: u32,
    pub sample_count: u32,
    pub cull_back_faces: bool,
    pub has_depth_stencil: bool,
}

/// One cache entry: the pipeline identity and the descriptor built for it.
pub struct PipelineEntry {
    pub pipeline_type: PipelineType,
    pub desc: PipelineDesc,
}

/// The descriptor `d` is exactly what `config` asks for, against the shader
/// registry `shaders`: the shader slots hold the configured shaders, the
/// layout list holds the configured layout and nothing else, and the vertex
/// layout and fixed-function state take their fixed values.
pub open spec fn desc_obeys_config(
    d: PipelineDesc,
    shaders: Seq<ShaderType>,
    config: PipelineConfig,
) -> bool {
    &&& d.vertex_shader_slot < shaders.len()
    &&& shaders[d.vertex_shader_slot as int] == config.vert_shader
    &&& match config.frag_shader {
        Some(f) => {
            &&& d.fragment_shader_slot matches Some(s)
            &&& s < shaders.len()
            &&& shaders[s as int] == f
        },
        None => d.fragment_shader_slot is None,
    }
    &&& match config.uniform_buffer_layout {
        Some(l) => d.bind_group_layouts@ == seq![l],
        None => d.bind_group_layouts@.len() == 0,
    }
    &&& d.vertex_stride == crate::geometry::POSITION_SIZE
    &&& d.vertex_attribute_offset == 0
    &&& d.vertex_attribute_location == 0
    &&& d.sample_count == 1
    &&& d.cull_back_faces
    &&& !d.has_depth_stencil
}

/// The pipeline cache, in registration order.  Slot `i` of the host's
/// compiled-pipeline table holds the pipeline built from `store[i].desc`.
pub struct PipelineStore {
    pub store: Vec<PipelineEntry>,
}

impl PipelineStore {
    /// No pipeline identity is registered twice.
    pub open spec fn wf(self) -> bool {
        forall|i: int, j: int|
            0 <= i < j < self.store@.len()
                ==> self.store@[i].pipeline_type != self.store@[j].pipeline_type
    }

    /// `pipeline_type` has an entry in the cache.
    pub open spec fn registered(self, pipeline_type: PipelineType) -> bool {
        exists|i: int|
            0 <= i < self.store@.len() && self.store@[i].pipeline_type == pipeline_type
    }

    /// Every pipeline of the closed enumeration is registered.
    pub open spec fn complete(self) -> bool {
        forall|t: PipelineType| self.registered(t)
    }

    /// The slot holding `pipeline_type`; unique when the cache is
    /// well-formed and the type is registered.
    pub open spec fn slot_spec(self, pipeline_type: PipelineType) -> int {
        choose|i: int|
            0 <= i < self.store@.len() && self.store@[i].pipeline_type == pipeline_type
    }

    /// Builds and registers one pipeline for every material archetype.
    pub fn new(shaders: &ShaderStore) -> (s: Self)
        requires
            shaders.wf(),
            shaders.complete(),
        ensures
            s.wf(),
            s.complete(),
            s.store@.len() == 1,
            s.store@[0].pipeline_type == PipelineType::SolidColorMaterial,
            desc_obeys_config(s.store@[0].desc, shaders.store@, solid_color_config()),
    {
        let mut store: Vec<PipelineEntry> = Vec::new();

        let pipeline_config = SolidColorMaterial::get_pipeline_config();
        store.push(PipelineEntry {
            pipeline_type: PipelineType::SolidColorMaterial,
            desc: PipelineStore::create_pipeline(shaders, pipeline_config),
        });

        let s = PipelineStore { store };
        proof {
            assert forall|t: PipelineType| s.registered(t) by {
                match t {
                    PipelineType::SolidColorMaterial => {
                        assert(s.store@[0].pipeline_type == t);
                    },
                }
            }
        }
        s
    }

    /// Looks up the cache slot for a pipeline identity.  A miss is a
    /// programming error: the set of material types is closed and every one
    /// is registered at construction.
    pub fn get(&self, pipeline_type: PipelineType) -> (slot: usize)
        requires
            self.wf(),
            self.registered(pipeline_type),
        ensures
            slot < self.store@.len(),
            self.store@[slot as int].pipeline_type == pipeline_type,
            slot == self.slot_spec(pipeline_type),
    {
        let mut i: usize = 0;
        while i < self.store.len()
            invariant
                i <= self.store@.len(),
                self.wf(),
                self.registered(pipeline_type),
                forall|j: int| 0 <= j < i ==> self.store@[j].pipeline_type != pipeline_type,
            decreases self.store@.len() - i,
        {
            if self.store[i].pipeline_type == pipeline_type {
                proof {
                    let c = self.slot_spec(pipeline_type);
                    if c != i {
                        if c < i {
                            assert(self.store@[c].pipeline_type
                                != self.store@[i as int].pipeline_type);
                        } else {
                            assert(self.store@[i as int].pipeline_type
                                != self.store@[c].pipeline_type);
                        }
                    }
                }
                return i;
            }
            i = i + 1;
        }
        proof {
            assert(false);
        }
        0
    }

    /// Builds the descriptor for one pipeline: resolves the configured
    /// shaders to their registry slots, collects the configured bind-group
    /// layout, and fills in the fixed vertex layout and fixed-function
    /// state of this renderer.
    fn create_pipeline(shader_store: &ShaderStore, pipeline_config: PipelineConfig) -> (d:
        PipelineDesc)
        requires
            shader_store.loaded(pipeline_config.vert_shader),
            pipeline_config.frag_shader matches Some(f) ==> shader_store.loaded(f),
        ensures
            desc_obeys_config(d, shader_store.store@, pipeline_config),
    {
        let mut layouts: Vec<UniformLayoutDesc> = Vec::new();
        if let Some(uniform_buffer_layout) = pipeline_config.uniform_buffer_layout {
            layouts.push(uniform_buffer_layout);
        }

        let fragment_shader_slot = match pipeline_config.frag_shader {
            Some(frag_shader) => Some(shader_store.get(frag_shader)),
            None => None,
        };

        let d = PipelineDesc {
            vertex_shader_slot: shader_store.get(pipeline_config.vert_shader),
            fragment_shader_slot,
            bind_group_layouts: layouts,
            vertex_stride: crate::geometry::POSITION_SIZE,
            vertex_attribute_offset: 0,
            vertex_attribute_location: 0,
            sample_count: 1,
            cull_back_faces: true,
            has_depth_stencil: false,
        };
        proof {
            if pipeline_config.uniform_buffer_layout is Some {
                assert(d.bind_group_layouts@
                    =~= seq![pipeline_config.uniform_buffer_layout->0]);
            }
        }
        d
    }
}

} // verus!
