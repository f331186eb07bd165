//! The geometry arena: one growable vertex buffer and one growable index
//! buffer shared by every loaded mesh.  Appends advance a write cursor and
//! hand out immutable handles describing the element range owned by each
//! mesh; data is never overwritten or removed once appended.

use vstd::prelude::*;

use crate::commands::{DrawCommand, FrameCommands};
use crate::RenderError;
use vstd::arithmetic::mul::{lemma_mul_inequality, lemma_mul_is_distributive_add_other_way};

verus! {

/// Element capacity of the shared vertex buffer at creation.
pub const STARTING_VERTICES: u64 = 65536;

/// Element capacity of the shared index buffer at creation.
pub const STARTING_INDICES: u64 = 65536;

/// Bytes per vertex position: one three-component 32-bit float vector,
/// tightly packed.
pub const POSITION_SIZE: u64 = 12;

/// Bytes per index: one 32-bit unsigned integer.
pub const INDEX_SIZE: u64 = 4;

/// A vertex position held as the bit patterns of its three 32-bit float
/// components.  The arena never interprets the components; it copies them
/// bit-exactly, so the host's conversion to and from its float vector type
/// is lossless.
#[derive(Debug, Clone, Copy, PartialEq, Eq, Structural)]
pub struct Position {
    pub x_bits: u32,
    pub y_bits: u32,
    pub z_bits: u32,
}

/// The element range a single append claimed inside one shared buffer:
/// `start` is the element offset of the first item, `size` the item count.
#[derive(Debug, Clone, Copy, PartialEq, Eq, Structural)]
pub struct BufferRange {
    pub start: u64,
    pub size: usize,
}

/// Write-cursor bookkeeping for one shared GPU buffer.  The cursor is kept
/// in both element units (`idx_offset`) and byte units (`buffer_offset`);
/// the host uploads each appended slice at the byte offset the cursor had
/// when the range was claimed.
#[derive(Debug, Clone, Copy, PartialEq, Eq, Structural)]
pub struct Buffer {
    pub capacity: u64,
    pub item_size: u64,
    pub buffer_offset: u64,
    pub idx_offset: u64,
}

impl Buffer {
    /// The cursors agree with each other and stay inside the allocation.
    pub open spec fn wf(self) -> bool {
        &&& 1 <= self.item_size
        &&& self.idx_offset <= self.capacity
        &&& self.buffer_offset == self.idx_offset * self.item_size
        &&& self.capacity * self.item_size <= u64::MAX
    }

    pub fn new(capacity: u64, item_size: u64) -> (b: Self)
        requires
            1 <= item_size,
            capacity * item_size <= u64::MAX,
        ensures
            b.wf(),
            b.capacity == capacity,
            b.item_size == item_size,
            b.idx_offset == 0,
            b.buffer_offset == 0,
    {
        Buffer { capacity, item_size, buffer_offset: 0, idx_offset: 0 }
    }

    /// Claims the next `len` elements: advances both cursors and returns the
    /// element range that the caller's data now owns.
    pub fn write(&mut self, len: usize) -> (r: BufferRange)
        requires
            old(self).wf(),
            old(self).idx_offset + len <= old(self).capacity,
        ensures
            final(self).wf(),
            final(self).capacity == old(self).capacity,
            final(self).item_size == old(self).item_size,
            final(self).idx_offset == old(self).idx_offset + len,
            final(self).buffer_offset == old(self).buffer_offset + len * old(self).item_size,
            r.start == old(self).idx_offset,
            r.size == len,
    {
        proof {
            lemma_mul_inequality(
                old(self).idx_offset + len as int,
                old(self).capacity as int,
                old(self).item_size as int,
            );
            lemma_mul_is_distributive_add_other_way(
                old(self).item_size as int,
                old(self).idx_offset as int,
                len as int,
            );
        }
        let start = self.idx_offset;
        self.buffer_offset = self.buffer_offset + (len as u64) * self.item_size;
        self.idx_offset = self.idx_offset + (len as u64);
        BufferRange { start, size: len }
    }
}

/// Raw geometry for one mesh: its vertex positions and its 32-bit triangle
/// indices, exactly as extracted from the interchange file.
#[derive(Debug, Clone, PartialEq, Eq)]
pub struct Geometry {
    pub vertex_positions: Vec<Position>,
    pub indices: Vec<u32>,
}

/// An immutable descriptor of the arena ranges one mesh owns.  Created once
/// at load time, never mutated, safe to copy freely; offsets stay valid for
/// the arena's whole lifetime because the arena is append-only.
#[derive(Debug, Clone, Copy, PartialEq, Eq, Structural)]
pub struct GeometryHandle {
    pub vertex_position_range: BufferRange,
    pub indices_range: BufferRange,
    pub geometry_idx: usize,
}

/// The shared arena: cursor bookkeeping for the vertex and index buffers,
/// and the retained copy of every appended geometry, in append order.
pub struct GeometryStore {
    pub vertex_positions: Buffer,
    pub indices: Buffer,
    pub geometries: Vec<Geometry>,
}

/// Total number of vertex positions held by a sequence of geometries.
pub open spec fn total_vertices(gs: Seq<Geometry>) -> int
    decreases gs.len(),
{
    if gs.len() == 0 {
        0
    } else {
        total_vertices(gs.drop_last()) + gs.last().vertex_positions@.len()
    }
}

/// Total number of indices held by a sequence of geometries.
pub open spec fn total_indices(gs: Seq<Geometry>) -> int
    decreases gs.len(),
{
    if gs.len() == 0 {
        0
    } else {
        total_indices(gs.drop_last()) + gs.last().indices@.len()
    }
}

/// The vertex-element offset at which geometry `i` begins: the vertices of
/// all geometries appended before it.
pub open spec fn vertex_start(gs: Seq<Geometry>, i: int) -> int {
    total_vertices(gs.subrange(0, i))
}

/// The index-element offset at which geometry `i` begins.
pub open spec fn index_start(gs: Seq<Geometry>, i: int) -> int {
    total_indices(gs.subrange(0, i))
}

impl GeometryStore {
    /// The cursors stand exactly at the end of the retained data, and both
    /// allocations are small enough that every element offset fits the
    /// index types of an indexed draw call (`u32` first index, `i32` base
    /// vertex).
    pub open spec fn wf(self) -> bool {
        &&& self.vertex_positions.wf()
        &&& self.indices.wf()
        &&& self.vertex_positions.item_size == POSITION_SIZE
        &&& self.indices.item_size == INDEX_SIZE
        &&& self.vertex_positions.capacity <= i32::MAX
        &&& self.indices.capacity <= u32::MAX
        &&& self.vertex_positions.idx_offset == total_vertices(self.geometries@)
        &&& self.indices.idx_offset == total_indices(self.geometries@)
    }

    /// Both appends of `g` stay within the current allocations.
    pub open spec fn fits(self, g: Geometry) -> bool {
        &&& self.vertex_positions.idx_offset + g.vertex_positions@.len()
            <= self.vertex_positions.capacity
        &&& self.indices.idx_offset + g.indices@.len() <= self.indices.capacity
    }

    /// `h` describes exactly the ranges that geometry `h.geometry_idx`
    /// owns in this arena.
    pub open spec fn valid_handle(self, h: GeometryHandle) -> bool {
        &&& h.geometry_idx < self.geometries@.len()
        &&& h.vertex_position_range.start == vertex_start(self.geometries@, h.geometry_idx as int)
        &&& h.vertex_position_range.size
            == self.geometries@[h.geometry_idx as int].vertex_positions@.len()
        &&& h.indices_range.start == index_start(self.geometries@, h.geometry_idx as int)
        &&& h.indices_range.size == self.geometries@[h.geometry_idx as int].indices@.len()
    }

    pub fn new() -> (s: Self)
        ensures
            s.wf(),
            s.geometries@.len() == 0,
            s.vertex_positions.capacity == STARTING_VERTICES,
            s.indices.capacity == STARTING_INDICES,
            s.vertex_positions.idx_offset == 0,
            s.indices.idx_offset == 0,
    {
        GeometryStore {
            vertex_positions: Buffer::new(STARTING_VERTICES, POSITION_SIZE),
            indices: Buffer::new(STARTING_INDICES, INDEX_SIZE),
            geometries: Vec::new(),
        }
    }

    /// Appends one geometry to the shared buffers and returns the handle
    /// describing the ranges it now owns.  Succeeds exactly when the data
    /// fits the current allocations; on overflow nothing is changed, so a
    /// failed append never partially advances a write cursor.
    pub fn load_mesh(&mut self, geometry: Geometry) -> (r: Result<GeometryHandle, RenderError>)
        requires
            old(self).wf(),
        ensures
            final(self).wf(),
            r is Ok <==> old(self).fits(geometry),
            r matches Ok(h) ==> {
                &&& final(self).geometries@ == old(self).geometries@.push(geometry)
                &&& h.vertex_position_range.start == old(self).vertex_positions.idx_offset
                &&& h.vertex_position_range.size == geometry.vertex_positions@.len()
                &&& h.indices_range.start == old(self).indices.idx_offset
                &&& h.indices_range.size == geometry.indices@.len()
                &&& h.geometry_idx == old(self).geometries@.len()
                &&& final(self).valid_handle(h)
                &&& forall|h2: GeometryHandle|
                    old(self).valid_handle(h2) ==> final(self).valid_handle(h2)
            },
            r is Err ==> *final(self) == *old(self) && r == Err::<GeometryHandle, RenderError>(
                RenderError::CapacityExceeded,
            ),
            final(self).vertex_positions.capacity == old(self).vertex_positions.capacity,
            final(self).indices.capacity == old(self).indices.capacity,
    {
        let vlen = geometry.vertex_positions.len();
        let ilen = geometry.indices.len();
        if (vlen as u64) > self.vertex_positions.capacity - self.vertex_positions.idx_offset
            || (ilen as u64) > self.indices.capacity - self.indices.idx_offset
        {
            return Err(RenderError::CapacityExceeded);
        }
        let vertex_position_range = self.vertex_positions.write(vlen);
        let indices_range = self.indices.write(ilen);
        let ghost old_gs = self.geometries@;
        self.geometries.push(geometry);
        let geometry_idx = self.geometries.len() - 1;
        proof {
            lemma_total_push(old_gs, geometry);
            lemma_start_unchanged_by_push(old_gs, geometry, old_gs.len() as int);
            assert forall|h2: GeometryHandle|
                old(self).valid_handle(h2) implies self.valid_handle(h2) by {
                lemma_start_unchanged_by_push(old_gs, geometry, h2.geometry_idx as int);
            }
        }
        Ok(GeometryHandle { vertex_position_range, indices_range, geometry_idx })
    }

    /// Reads back the retained geometry a handle refers to.
    pub fn get_geometry_data(&self, handle: &GeometryHandle) -> (g: &Geometry)
        requires
            handle.geometry_idx < self.geometries@.len(),
        ensures
            *g == self.geometries@[handle.geometry_idx as int],
    {
        &self.geometries[handle.geometry_idx]
    }

    /// Binds the shared buffers for the active render pass: the vertex
    /// buffer at slot zero and the index buffer in 32-bit format.  Must be
    /// recorded once per pass before any indexed draw using arena data.
    pub fn set_geometry_buffers(&self, render_pass: &mut FrameCommands)
        ensures
            final(render_pass).clear_color == old(render_pass).clear_color,
            final(render_pass).commands@ == old(render_pass).commands@ + seq![
                DrawCommand::SetVertexBuffer,
                DrawCommand::SetIndexBuffer,
            ],
    {
        render_pass.commands.push(DrawCommand::SetVertexBuffer);
        render_pass.commands.push(DrawCommand::SetIndexBuffer);
        proof {
            assert(render_pass.commands@ =~= old(render_pass).commands@ + seq![
                DrawCommand::SetVertexBuffer,
                DrawCommand::SetIndexBuffer,
            ]);
        }
    }
}

/// Round trip: when an append takes a store from `before` to `after` and
/// hands back `h` — `after` retains `before`'s geometries plus `g`, and `h`
/// points at the new slot, exactly as `load_mesh` ensures — then reading
/// back through `h` yields `g` itself, bit for bit, and every earlier
/// geometry is untouched.
pub proof fn lemma_round_trip(
    before: GeometryStore,
    after: GeometryStore,
    g: Geometry,
    h: GeometryHandle,
)
    requires
        after.geometries@ == before.geometries@.push(g),
        h.geometry_idx == before.geometries@.len(),
    ensures
        after.geometries@[h.geometry_idx as int] == g,
        forall|i: int|
            0 <= i < before.geometries@.len() ==> after.geometries@[i] == before.geometries@[i],
{
}

/// Appending one geometry adds exactly its element counts to the totals.
pub proof fn lemma_total_push(gs: Seq<Geometry>, g: Geometry)
    ensures
        total_vertices(gs.push(g)) == total_vertices(gs) + g.vertex_positions@.len(),
        total_indices(gs.push(g)) == total_indices(gs) + g.indices@.len(),
{
    assert(gs.push(g).drop_last() =~= gs);
}

/// An append never moves the start offset of an earlier geometry: the
/// prefix before position `i` is unchanged by a push at the end.
pub proof fn lemma_start_unchanged_by_push(gs: Seq<Geometry>, g: Geometry, i: int)
    requires
        0 <= i <= gs.len(),
    ensures
        vertex_start(gs.push(g), i) == vertex_start(gs, i),
        index_start(gs.push(g), i) == index_start(gs, i),
{
    assert(gs.push(g).subrange(0, i) =~= gs.subrange(0, i));
}

/// The element counts of a geometry sequence are never negative.
pub proof fn lemma_total_nonneg(gs: Seq<Geometry>)
    ensures
        total_vertices(gs) >= 0,
        total_indices(gs) >= 0,
    decreases gs.len(),
{
    if gs.len() > 0 {
        lemma_total_nonneg(gs.drop_last());
    }
}

/// Consecutive handles tile the buffers exactly: geometry `i + 1` begins
/// precisely where geometry `i` ends, in both shared buffers, and the first
/// geometry begins at offset zero.
pub proof fn lemma_ranges_tile(gs: Seq<Geometry>, i: int)
    requires
        0 <= i < gs.len(),
    ensures
        vertex_start(gs, 0) == 0,
        index_start(gs, 0) == 0,
        vertex_start(gs, i + 1) == vertex_start(gs, i) + gs[i].vertex_positions@.len(),
        index_start(gs, i + 1) == index_start(gs, i) + gs[i].indices@.len(),
        vertex_start(gs, gs.len() as int) == total_vertices(gs),
        index_start(gs, gs.len() as int) == total_indices(gs),
{
    assert(gs.subrange(0, 0) =~= Seq::<Geometry>::empty());
    assert(gs.subrange(0, gs.len() as int) =~= gs);
    let pre = gs.subrange(0, i + 1);
    assert(pre.drop_last() =~= gs.subrange(0, i));
    assert(pre.last() == gs[i]);
}

/// The ranges of distinct handles never overlap: for `i < j`, geometry `i`'s
/// range ends no later than geometry `j`'s begins, in both shared buffers.
pub proof fn lemma_ranges_disjoint(gs: Seq<Geometry>, i: int, j: int)
    requires
        0 <= i < j < gs.len(),
    ensures
        vertex_start(gs, i) + gs[i].vertex_positions@.len() <= vertex_start(gs, j),
        index_start(gs, i) + gs[i].indices@.len() <= index_start(gs, j),
    decreases j,
{
    lemma_ranges_tile(gs, j - 1);
    lemma_total_nonneg(gs.subrange(0, j));
    if i == j - 1 {
        assert(gs[j - 1].vertex_positions@.len() >= 0);
    } else {
        lemma_ranges_disjoint(gs, i, j - 1);
        lemma_total_nonneg(gs.subrange(0, j - 1));
        assert(gs[j - 1].vertex_positions@.len() >= 0);
        assert(gs[j - 1].indices@.len() >= 0);
    }
}

/// Every start offset lies within the total element count: a handle's range
/// sits inside the data written so far.
pub proof fn lemma_start_bounded(gs: Seq<Geometry>, i: int)
    requires
        0 <= i < gs.len(),
    ensures
        0 <= vertex_start(gs, i),
        vertex_start(gs, i) + gs[i].vertex_positions@.len() <= total_vertices(gs),
        0 <= index_start(gs, i),
        index_start(gs, i) + gs[i].indices@.len() <= total_indices(gs),
    decreases gs.len(),
{
    lemma_total_nonneg(gs.subrange(0, i));
    lemma_ranges_tile(gs, i);
    if i == gs.len() - 1 {
        assert(gs.subrange(0, gs.len() as int) =~= gs);
    } else {
        lemma_ranges_disjoint(gs, i, gs.len() - 1);
        lemma_ranges_tile(gs, gs.len() - 1);
        lemma_total_nonneg(gs.subrange(0, gs.len() - 1));
    }
}

} // verus!
