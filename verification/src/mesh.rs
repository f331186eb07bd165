//! A mesh value: a geometry handle into the shared arena and the material
//! it draws with.  A plain copyable value owning no GPU resources; those
//! live in the renderer's arena and material table.

use vstd::prelude::*;

use crate::commands::{DrawCommand, FrameCommands};
use crate::geometry::GeometryHandle;
use crate::materials::Material;

verus! {

#[derive(Debug, Clone, Copy, PartialEq, Eq, Structural)]
pub struct Mesh {
    pub geometry: GeometryHandle,
    pub material: Material,
}

/// The indexed draw a mesh contributes to a frame: its whole index range,
/// with vertex indices rebased to the start of its vertex range.
pub open spec fn mesh_draw(m: Mesh) -> DrawCommand {
    DrawCommand::DrawIndexed {
        first_index: m.geometry.indices_range.start as u32,
        index_count: m.geometry.indices_range.size as u32,
        base_vertex: m.geometry.vertex_position_range.start as i32,
    }
}

impl Mesh {
    pub fn new(geometry: GeometryHandle, material: Material) -> (m: Self)
        ensures
            m.geometry == geometry,
            m.material == material,
    {
        Mesh { geometry, material }
    }

    /// Records this mesh's indexed draw into the frame's render pass: the
    /// draw covers exactly the mesh's index range, with a base vertex equal
    /// to the start of its vertex range.
    pub fn render(&self, render_pass: &mut FrameCommands)
        requires
            self.geometry.indices_range.start + self.geometry.indices_range.size <= u32::MAX,
            self.geometry.vertex_position_range.start <= i32::MAX,
        ensures
            final(render_pass).clear_color == old(render_pass).clear_color,
            final(render_pass).commands@ == old(render_pass).commands@.push(mesh_draw(*self)),
    {
        let start = self.geometry.indices_range.start as u32;
        let end = start + (self.geometry.indices_range.size as u32);
        let offset = self.geometry.vertex_position_range.start as i32;
        render_pass.commands.push(DrawCommand::DrawIndexed {
            first_index: start,
            index_count: end - start,
            base_vertex: offset,
        });
    }
}

} // verus!
