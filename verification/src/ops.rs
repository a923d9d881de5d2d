//! GPU operations emitted by the renderer.
//!
//! The verified core does not talk to the graphics API itself: rendering a
//! frame produces an ordered list of operations, plain values that an
//! unverified host interprets one by one against the real device and an
//! open command-recording target.  The meaning of each frame's list is
//! pinned down exactly by the spec functions below, which mirror the
//! draw-command walk: lists and commands are visited in order, running
//! vertex/index offsets accumulate across the merged buffers, and a
//! command whose translated clip rectangle is empty or inverted emits
//! nothing.

use vstd::prelude::*;

verus! {

use crate::draw_data::ClipRect;
use crate::draw_data::DrawCmd;
use crate::draw_data::DrawList;
use crate::draw_data::Vec2i;

/// GPU heap kind a resource is allocated from.
#[derive(Clone, Copy, PartialEq, Eq, Structural, Debug)]
pub enum HeapType {
    /// GPU-resident memory.
    DefaultHeap,
    /// CPU-visible upload memory.
    UploadHeap,
}

/// Resource states the renderer transitions between.
#[derive(Clone, Copy, PartialEq, Eq, Structural, Debug)]
pub enum ResourceState {
    CopyDest,
    GenericRead,
    PixelShaderResource,
}

/// Element format of the bound index buffer.
#[derive(Clone, Copy, PartialEq, Eq, Structural, Debug)]
pub enum IndexFormat {
    R16Uint,
    R32Uint,
}

/// The index format for a given index element byte width.
pub open spec fn spec_index_format(stride: int) -> IndexFormat {
    if stride == 2 {
        IndexFormat::R16Uint
    } else {
        IndexFormat::R32Uint
    }
}

/// Description of a plain buffer resource to allocate.
#[derive(Clone, Copy, PartialEq, Eq, Structural, Debug)]
pub struct BufferDesc {
    pub byte_size: usize,
    pub heap: HeapType,
    pub initial_state: ResourceState,
}

/// Everything the full render-state setup binds: an orthographic
/// projection mapping `[display_pos, display_pos + display_size]` to clip
/// space (the host derives the 16 root constants from the two fields), a
/// full-window viewport, the merged vertex/index buffers, triangle-list
/// topology, the pipeline, and an all-zero blend factor.
#[derive(Clone, Copy, PartialEq, Eq, Structural, Debug)]
pub struct RenderStateDesc {
    pub display_pos: Vec2i,
    pub display_size: Vec2i,
    pub vertex_buffer_bytes: usize,
    pub vertex_stride: usize,
    pub index_buffer_bytes: usize,
    pub index_format: IndexFormat,
}

/// One operation for the host to perform, in order.
#[derive(Clone, Copy, PartialEq, Eq, Structural, Debug)]
pub enum GpuOp {
    /// Release frame slot `slot`'s old vertex buffer, if any, and allocate
    /// a fresh one holding `capacity` vertex records.  `serial` numbers the
    /// allocations of this slot for diagnostic naming.
    CreateVertexBuffer { slot: usize, capacity: usize, serial: usize, desc: BufferDesc },
    /// Same for the index buffer, with `capacity` index elements.
    CreateIndexBuffer { slot: usize, capacity: usize, serial: usize, desc: BufferDesc },
    /// Map slot `slot`'s buffers and copy this frame's merged vertex bytes
    /// and indices into them, then unmap.
    UploadGeometry { slot: usize },
    /// Apply the full render-state setup.
    SetRenderState { state: RenderStateDesc },
    /// Bind a texture as the descriptor-table root parameter.
    BindTexture { texture_id: u64 },
    /// Set the scissor rectangle, in framebuffer pixels.
    SetScissor { left: i32, top: i32, right: i32, bottom: i32 },
    /// Issue an indexed draw at the accumulated offsets.
    DrawIndexed { index_count: usize, first_index: usize, base_vertex: usize },
    /// Invoke the opaque embedder callback of draw-list `list_index`.
    InvokeCallback { list_index: usize, callback: u64 },
}

/// Clamp an unbounded value into the `i32` range.
pub open spec fn spec_clamp_i32(v: int) -> int {
    if v < i32::MIN as int {
        i32::MIN as int
    } else if v > i32::MAX as int {
        i32::MAX as int
    } else {
        v
    }
}

/// Is the command's clip rectangle, translated by the display origin,
/// empty or inverted?  Such a command is fully clipped and skipped.
pub open spec fn spec_clipped(clip: ClipRect, pos: Vec2i) -> bool {
    ||| clip.max_x - pos.x <= clip.min_x - pos.x
    ||| clip.max_y - pos.y <= clip.min_y - pos.y
}

/// Operations for one `Elements` command: nothing if fully clipped,
/// otherwise bind the command's texture, set the scissor rectangle, and
/// draw `count` indices at the accumulated offsets.
pub open spec fn spec_elements_ops(
    pos: Vec2i,
    count: usize,
    clip: ClipRect,
    texture_id: u64,
    vtx_offset: usize,
    idx_offset: usize,
    base_vtx: usize,
    base_idx: usize,
) -> Seq<GpuOp> {
    if spec_clipped(clip, pos) {
        Seq::empty()
    } else {
        seq![
            GpuOp::BindTexture { texture_id },
            GpuOp::SetScissor {
                left: spec_clamp_i32(clip.min_x - pos.x) as i32,
                top: spec_clamp_i32(clip.min_y - pos.y) as i32,
                right: spec_clamp_i32(clip.max_x - pos.x) as i32,
                bottom: spec_clamp_i32(clip.max_y - pos.y) as i32,
            },
            GpuOp::DrawIndexed {
                index_count: count,
                first_index: (idx_offset + base_idx) as usize,
                base_vertex: (vtx_offset + base_vtx) as usize,
            },
        ]
    }
}

/// Operations for one command of draw-list `list_index`, with `base_vtx` /
/// `base_idx` the running offsets of that list in the merged buffers.
pub open spec fn spec_cmd_ops(
    pos: Vec2i,
    rs: RenderStateDesc,
    cmd: DrawCmd,
    list_index: usize,
    base_vtx: usize,
    base_idx: usize,
) -> Seq<GpuOp> {
    match cmd {
        DrawCmd::Elements { count, clip_rect, texture_id, vtx_offset, idx_offset } =>
            spec_elements_ops(
                pos, count, clip_rect, texture_id, vtx_offset, idx_offset, base_vtx, base_idx,
            ),
        DrawCmd::ResetRenderState => seq![GpuOp::SetRenderState { state: rs }],
        DrawCmd::RawCallback { callback } => seq![GpuOp::InvokeCallback { list_index, callback }],
    }
}

/// Operations for a sequence of commands, in order.
pub open spec fn spec_cmds_ops(
    pos: Vec2i,
    rs: RenderStateDesc,
    cmds: Seq<DrawCmd>,
    list_index: usize,
    base_vtx: usize,
    base_idx: usize,
) -> Seq<GpuOp>
    decreases cmds.len(),
{
    if cmds.len() == 0 {
        Seq::empty()
    } else {
        spec_cmd_ops(pos, rs, cmds[0], list_index, base_vtx, base_idx) + spec_cmds_ops(
            pos,
            rs,
            cmds.drop_first(),
            list_index,
            base_vtx,
            base_idx,
        )
    }
}

/// Operations for a sequence of draw-lists: each list's commands in order,
/// the running offsets advancing by each list's vertex/index counts.
pub open spec fn spec_lists_ops(
    pos: Vec2i,
    rs: RenderStateDesc,
    lists: Seq<DrawList>,
    list_index: usize,
    base_vtx: usize,
    base_idx: usize,
) -> Seq<GpuOp>
    decreases lists.len(),
{
    if lists.len() == 0 {
        Seq::empty()
    } else {
        spec_cmds_ops(pos, rs, lists[0].commands@, list_index, base_vtx, base_idx)
            + spec_lists_ops(
            pos,
            rs,
            lists.drop_first(),
            (list_index + 1) as usize,
            (base_vtx + lists[0].vtx_count()) as usize,
            (base_idx + lists[0].idx_count()) as usize,
        )
    }
}

/// Peel the first unprocessed command off the remaining-commands stream.
pub proof fn lemma_cmds_ops_peel(
    pos: Vec2i,
    rs: RenderStateDesc,
    cmds: Seq<DrawCmd>,
    j: int,
    list_index: usize,
    base_vtx: usize,
    base_idx: usize,
)
    requires
        0 <= j < cmds.len(),
    ensures
        spec_cmds_ops(pos, rs, cmds.skip(j), list_index, base_vtx, base_idx) == spec_cmd_ops(
            pos,
            rs,
            cmds[j],
            list_index,
            base_vtx,
            base_idx,
        ) + spec_cmds_ops(pos, rs, cmds.skip(j + 1), list_index, base_vtx, base_idx),
{
    assert(cmds.skip(j).drop_first() =~= cmds.skip(j + 1));
    assert(cmds.skip(j)[0] == cmds[j]);
}

/// Peel the first unprocessed draw-list off the remaining-lists stream.
pub proof fn lemma_lists_ops_peel(
    pos: Vec2i,
    rs: RenderStateDesc,
    lists: Seq<DrawList>,
    i: int,
    base_vtx: usize,
    base_idx: usize,
)
    requires
        0 <= i < lists.len(),
        i <= usize::MAX - 1,
    ensures
        spec_lists_ops(pos, rs, lists.skip(i), i as usize, base_vtx, base_idx)
            == spec_cmds_ops(pos, rs, lists[i].commands@, i as usize, base_vtx, base_idx)
            + spec_lists_ops(
            pos,
            rs,
            lists.skip(i + 1),
            (i + 1) as usize,
            (base_vtx + lists[i].vtx_count()) as usize,
            (base_idx + lists[i].idx_count()) as usize,
        ),
{
    assert(lists.skip(i).drop_first() =~= lists.skip(i + 1));
    assert(lists.skip(i)[0] == lists[i]);
}

/// A draw command whose translated clip rectangle satisfies
/// `max.x <= min.x` or `max.y <= min.y` issues no operation at all — in
/// particular, no draw call.
pub proof fn lemma_clipped_command_emits_nothing(
    pos: Vec2i,
    rs: RenderStateDesc,
    count: usize,
    clip: ClipRect,
    texture_id: u64,
    vtx_offset: usize,
    idx_offset: usize,
    list_index: usize,
    base_vtx: usize,
    base_idx: usize,
)
    requires
        spec_clipped(clip, pos),
    ensures
        spec_cmd_ops(
            pos,
            rs,
            DrawCmd::Elements { count, clip_rect: clip, texture_id, vtx_offset, idx_offset },
            list_index,
            base_vtx,
            base_idx,
        ) == Seq::<GpuOp>::empty(),
{
}

/// The operations a frame submission carries, together with the merged
/// geometry to upload when the host reaches `GpuOp::UploadGeometry`.
pub struct FrameSubmission {
    /// The draw-lists' vertex arrays concatenated in list order.
    pub vertex_bytes: Vec<u8>,
    /// The draw-lists' index arrays concatenated in list order.
    pub indices: Vec<u16>,
    /// The operations to perform, in order.
    pub ops: Vec<GpuOp>,
}

} // verus!
