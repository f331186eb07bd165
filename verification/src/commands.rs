//! The per-frame command plan: the exact, ordered list of GPU commands the
//! renderer decides to record for one frame.  The host replays the plan
//! against its device — begin one render pass cleared to the background
//! color, execute the commands in order, then submit and present.

use vstd::prelude::*;

use crate::materials::Rgba;

verus! {

/// Bit pattern of the red component of the fixed background color.
pub const BACKGROUND_R_BITS: u32 = 0x3DCCCCCD;

/// Bit pattern of the green component of the fixed background color.
pub const BACKGROUND_G_BITS: u32 = 0x3E4CCCCD;

/// Bit pattern of the blue component of the fixed background color.
pub const BACKGROUND_B_BITS: u32 = 0x3E99999A;

/// Bit pattern of the alpha component of the fixed background color.
pub const BACKGROUND_A_BITS: u32 = 0x3F800000;

/// The fixed background color every frame clears to.
pub open spec fn background_color() -> Rgba {
    Rgba {
        r_bits: BACKGROUND_R_BITS,
        g_bits: BACKGROUND_G_BITS,
        b_bits: BACKGROUND_B_BITS,
        a_bits: BACKGROUND_A_BITS,
    }
}

/// One command inside the frame's single render pass.
///
/// `SetPipeline` and `SetBindGroup` carry slots into the renderer's
/// pipeline cache and material-buffer table; `SetVertexBuffer` and
/// `SetIndexBuffer` bind the shared arena buffers (vertex buffer at slot
/// zero, indices in 32-bit format); `DrawIndexed` issues one indexed draw
/// over `index_count` indices starting at `first_index`, with vertex
/// indices offset by `base_vertex`.
#[derive(Debug, Clone, Copy, PartialEq, Eq, Structural)]
pub enum DrawCommand {
    SetPipeline { pipeline_slot: usize },
    SetBindGroup { material_handle: usize },
    SetVertexBuffer,
    SetIndexBuffer,
    DrawIndexed { first_index: u32, index_count: u32, base_vertex: i32 },
}

/// The full plan for one frame: the clear color of the render pass and the
/// commands to record in it, in order.
#[derive(Debug, PartialEq, Eq)]
pub struct FrameCommands {
    pub clear_color: Rgba,
    pub commands: Vec<DrawCommand>,
}

/// The draws of a command list, in order: the subsequence of `DrawIndexed`
/// commands.
pub open spec fn indexed_draws(cmds: Seq<DrawCommand>) -> Seq<DrawCommand>
    decreases cmds.len(),
{
    if cmds.len() == 0 {
        Seq::empty()
    } else if cmds.last() is DrawIndexed {
        indexed_draws(cmds.drop_last()).push(cmds.last())
    } else {
        indexed_draws(cmds.drop_last())
    }
}

/// Extracting the draws distributes over concatenation.
pub proof fn lemma_indexed_draws_add(a: Seq<DrawCommand>, b: Seq<DrawCommand>)
    ensures
        indexed_draws(a + b) == indexed_draws(a) + indexed_draws(b),
    decreases b.len(),
{
    if b.len() == 0 {
        assert(a + b =~= a);
        assert(indexed_draws(a) + Seq::<DrawCommand>::empty() =~= indexed_draws(a));
    } else {
        lemma_indexed_draws_add(a, b.drop_last());
        assert((a + b).drop_last() =~= a + b.drop_last());
        assert((a + b).last() == b.last());
        if b.last() is DrawIndexed {
            assert(indexed_draws(a) + indexed_draws(b)
                =~= (indexed_draws(a) + indexed_draws(b.drop_last())).push(b.last()));
        }
    }
}

} // verus!
