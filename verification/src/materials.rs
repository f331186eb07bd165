//! The material system: a closed enumeration of material archetypes, the
//! small plain-data payload uploaded into each material's uniform buffer,
//! and the per-instance GPU-side buffer description kept in a flat table on
//! the renderer.

use vstd::prelude::*;

pub mod solid_color_material;

pub use solid_color_material::SolidColorMaterial;

use crate::pipelines::{PipelineType, UniformLayoutDesc};
use solid_color_material::uniform_layout;

verus! {

/// An index into the renderer's material-buffer table.
pub type MaterialHandle = usize;

/// An RGBA color held as the bit patterns of its four 32-bit float
/// components; uploaded verbatim into a uniform buffer, so the bits are
/// what the GPU sees.
#[derive(Debug, Clone, Copy, PartialEq, Eq, Structural)]
pub struct Rgba {
    pub r_bits: u32,
    pub g_bits: u32,
    pub b_bits: u32,
    pub a_bits: u32,
}

/// The per-instance payload of a material: an RGBA albedo color.
#[derive(Debug, Clone, Copy, PartialEq, Eq, Structural)]
pub struct RenderProperties {
    pub albedo: Rgba,
}

/// The closed set of material archetypes.
#[derive(Debug, Clone, Copy, PartialEq, Eq, Structural)]
pub enum MaterialType {
    SolidColorMaterial,
}

/// One material instance: the slot of its GPU-side buffers in the
/// renderer's table, its archetype, and its payload.  A plain copyable
/// value; the GPU resources live in the renderer's table.
#[derive(Debug, Clone, Copy, PartialEq, Eq, Structural)]
pub struct Material {
    pub material_handle: MaterialHandle,
    pub material_type: MaterialType,
    pub render_properties: RenderProperties,
}

/// The GPU-side state of one material instance, as the host must build it:
/// the payload to upload into the uniform buffer, and the bind-group layout
/// the buffer is bound against.
#[derive(Debug, Clone, Copy, PartialEq, Eq, Structural)]
pub struct MaterialBuffers {
    pub uniform_data: RenderProperties,
    pub layout: UniformLayoutDesc,
}

/// The pipeline identity serving a material archetype.
pub open spec fn pipeline_id(material_type: MaterialType) -> PipelineType {
    match material_type {
        MaterialType::SolidColorMaterial => PipelineType::SolidColorMaterial,
    }
}

impl Material {
    /// Builds the GPU-side buffer description for one new material
    /// instance, dispatching on the archetype.  The payload is recorded
    /// verbatim: what the host uploads is exactly `render_properties`.
    pub(crate) fn create_buffers(
        material_type: &MaterialType,
        render_properties: &RenderProperties,
    ) -> (b: MaterialBuffers)
        ensures
            b.uniform_data == *render_properties,
            b.layout == uniform_layout(),
    {
        match material_type {
            MaterialType::SolidColorMaterial => {
                SolidColorMaterial::create_buffers(render_properties)
            },
        }
    }

    pub(crate) fn new(
        material_handle: MaterialHandle,
        material_type: MaterialType,
        render_properties: RenderProperties,
    ) -> (m: Self)
        ensures
            m.material_handle == material_handle,
            m.material_type == material_type,
            m.render_properties == render_properties,
    {
        Material { material_handle, material_type, render_properties }
    }

    /// The pipeline identity this material draws with, determined by its
    /// archetype alone.
    pub fn get_pipeline_id(&self) -> (p: PipelineType)
        ensures
            p == pipeline_id(self.material_type),
    {
        match &self.material_type {
            MaterialType::SolidColorMaterial => PipelineType::SolidColorMaterial,
        }
    }
}

} // verus!
