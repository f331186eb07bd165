//! The solid-color material archetype: a position-only vertex stage, a
//! fragment stage painting one uniform color, and a single uniform buffer
//! holding that color.

use vstd::prelude::*;

use crate::materials::{MaterialBuffers, RenderProperties};
use crate::pipelines::{PipelineConfig, UniformLayoutDesc};
use crate::shaders::ShaderType;

verus! {

/// The uniform bind-group layout of the solid-color archetype: one uniform
/// buffer at binding zero, visible to the fragment stage.
pub open spec fn uniform_layout() -> UniformLayoutDesc {
    UniformLayoutDesc { binding: 0, fragment_visible: true }
}

/// The pipeline requirements of the solid-color archetype: the basic
/// vertex and fragment shaders, and the uniform layout above.
pub open spec fn solid_color_config() -> PipelineConfig {
    PipelineConfig {
        vert_shader: ShaderType::BasicVert,
        frag_shader: Some(ShaderType::BasicFrag),
        uniform_buffer_layout: Some(uniform_layout()),
    }
}

/// The solid-color material archetype.
pub struct SolidColorMaterial {}

impl SolidColorMaterial {
    /// What this archetype asks of its pipeline.
    pub fn get_pipeline_config() -> (c: PipelineConfig)
        ensures
            c == solid_color_config(),
    {
        let uniform_bind_group_layout = UniformLayoutDesc { binding: 0, fragment_visible: true };

        PipelineConfig {
            vert_shader: ShaderType::BasicVert,
            frag_shader: Some(ShaderType::BasicFrag),
            uniform_buffer_layout: Some(uniform_bind_group_layout),
        }
    }

    /// The GPU-side buffers of one solid-color instance: the payload is
    /// uploaded verbatim into a uniform buffer sized to it, bound at
    /// binding zero against the archetype's layout.
    pub(crate) fn create_buffers(render_properties: &RenderProperties) -> (b: MaterialBuffers)
        ensures
            b.uniform_data == *render_properties,
            b.layout == uniform_layout(),
    {
        MaterialBuffers {
            uniform_data: *render_properties,
            layout: UniformLayoutDesc { binding: 0, fragment_visible: true },
        }
    }
}

} // verus!
