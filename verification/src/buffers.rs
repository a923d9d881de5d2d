//! Per-frame-slot vertex and index buffers.
//!
//! Each frame-in-flight slot owns one vertex buffer and one index buffer.
//! A slot's buffer is created lazily on the first frame that uses the
//! slot, and replaced wholesale — old buffer released, a larger one
//! allocated — whenever its capacity is insufficient for the upcoming
//! frame's total vertex/index count.  The new capacity is that count plus
//! a slack constant, which amortizes reallocation across frames with
//! slowly growing content.  Capacity never shrinks.

use vstd::prelude::*;

verus! {

use crate::draw_data::DrawCmd;
use crate::draw_data::DrawData;
use crate::draw_data::DrawList;
use crate::draw_data::INDEX_STRIDE;
use crate::draw_data::VERTEX_STRIDE;
use crate::draw_data::Vec2i;
use crate::draw_data::lemma_merged_idx_take_step;
use crate::draw_data::lemma_merged_vtx_take_step;
use crate::draw_data::lemma_sum_idx_prefix_bound;
use crate::draw_data::lemma_sum_idx_take_step;
use crate::draw_data::lemma_sum_vtx_prefix_bound;
use crate::draw_data::lemma_sum_vtx_take_step;
use crate::draw_data::merged_indices;
use crate::draw_data::merged_vtx_bytes;
use crate::draw_data::sum_idx_counts;
use crate::draw_data::sum_vtx_counts;
use crate::ops::BufferDesc;
use crate::ops::FrameSubmission;
use crate::ops::GpuOp;
use crate::ops::HeapType;
use crate::ops::RenderStateDesc;
use crate::ops::ResourceState;
use crate::ops::lemma_cmds_ops_peel;
use crate::ops::lemma_lists_ops_peel;
use crate::ops::spec_clamp_i32;
use crate::ops::spec_cmd_ops;
use crate::ops::spec_cmds_ops;
use crate::ops::spec_index_format;
use crate::ops::spec_lists_ops;

/// Extra vertex records allocated beyond the requesting frame's count.
pub const VERTEX_BUFFER_SLACK: usize = 5000;

/// Extra index elements allocated beyond the requesting frame's count.
pub const INDEX_BUFFER_SLACK: usize = 10000;

/// Bookkeeping for one frame slot's buffers.  The buffer resources
/// themselves live with the host; the model records whether each buffer
/// exists, its capacity in elements, and how many times it has been
/// (re)created, for diagnostic naming.
#[derive(Clone, Copy, PartialEq, Eq, Structural, Debug)]
pub struct RenderBuffers {
    pub vertex_buffer_allocated: bool,
    pub index_buffer_allocated: bool,
    /// Capacity of the vertex buffer, in vertex records.
    pub vertex_buffer_size: usize,
    /// Capacity of the index buffer, in index elements.
    pub index_buffer_size: usize,
    /// How many vertex buffers this slot has created so far.
    pub vbcount: usize,
    /// How many index buffers this slot has created so far.
    pub ibcount: usize,
}

/// Do the slack-padded buffer sizes of a frame with these totals fit in
/// byte counts the machine can address?
pub open spec fn totals_fit(total_vtx: usize, total_idx: usize) -> bool {
    &&& (total_vtx + VERTEX_BUFFER_SLACK) * VERTEX_STRIDE <= usize::MAX
    &&& (total_idx + INDEX_BUFFER_SLACK) * INDEX_STRIDE <= usize::MAX
}

/// Must the slot's vertex buffer be (re)created for a frame with
/// `total_vtx` vertices?
pub open spec fn needs_vertex_realloc(b: RenderBuffers, total_vtx: usize) -> bool {
    !b.vertex_buffer_allocated || b.vertex_buffer_size < total_vtx
}

/// Must the slot's index buffer be (re)created for a frame with
/// `total_idx` indices?
pub open spec fn needs_index_realloc(b: RenderBuffers, total_idx: usize) -> bool {
    !b.index_buffer_allocated || b.index_buffer_size < total_idx
}

/// A creation counter advances by one; it saturates rather than wrap.
pub open spec fn spec_bump(c: usize) -> usize {
    if c < usize::MAX {
        (c + 1) as usize
    } else {
        c
    }
}

/// The slot's bookkeeping after the vertex-growth decision.
pub open spec fn spec_grow_vtx(b: RenderBuffers, total_vtx: usize) -> RenderBuffers {
    if needs_vertex_realloc(b, total_vtx) {
        RenderBuffers {
            vertex_buffer_allocated: true,
            vertex_buffer_size: (total_vtx + VERTEX_BUFFER_SLACK) as usize,
            vbcount: spec_bump(b.vbcount),
            ..b
        }
    } else {
        b
    }
}

/// The slot's bookkeeping after the index-growth decision.
pub open spec fn spec_grow_idx(b: RenderBuffers, total_idx: usize) -> RenderBuffers {
    if needs_index_realloc(b, total_idx) {
        RenderBuffers {
            index_buffer_allocated: true,
            index_buffer_size: (total_idx + INDEX_BUFFER_SLACK) as usize,
            ibcount: spec_bump(b.ibcount),
            ..b
        }
    } else {
        b
    }
}

/// The slot's bookkeeping after serving a frame with these totals.
pub open spec fn spec_grow(b: RenderBuffers, total_vtx: usize, total_idx: usize) -> RenderBuffers {
    spec_grow_idx(spec_grow_vtx(b, total_vtx), total_idx)
}

/// Description of a slot's vertex buffer holding `capacity` records:
/// a CPU-visible upload-heap buffer, readable by the GPU.
pub open spec fn spec_vertex_buffer_desc(capacity: usize) -> BufferDesc {
    BufferDesc {
        byte_size: (capacity * VERTEX_STRIDE) as usize,
        heap: HeapType::UploadHeap,
        initial_state: ResourceState::GenericRead,
    }
}

/// Description of a slot's index buffer holding `capacity` elements.
pub open spec fn spec_index_buffer_desc(capacity: usize) -> BufferDesc {
    BufferDesc {
        byte_size: (capacity * INDEX_STRIDE) as usize,
        heap: HeapType::UploadHeap,
        initial_state: ResourceState::GenericRead,
    }
}

/// The buffer-creation operations a frame with these totals makes slot
/// `slot` emit.
pub open spec fn spec_alloc_ops(
    b: RenderBuffers,
    slot: usize,
    total_vtx: usize,
    total_idx: usize,
) -> Seq<GpuOp> {
    let vtx_ops: Seq<GpuOp> = if needs_vertex_realloc(b, total_vtx) {
        seq![
            GpuOp::CreateVertexBuffer {
                slot,
                capacity: (total_vtx + VERTEX_BUFFER_SLACK) as usize,
                serial: b.vbcount,
                desc: spec_vertex_buffer_desc((total_vtx + VERTEX_BUFFER_SLACK) as usize),
            },
        ]
    } else {
        Seq::empty()
    };
    let idx_ops: Seq<GpuOp> = if needs_index_realloc(b, total_idx) {
        seq![
            GpuOp::CreateIndexBuffer {
                slot,
                capacity: (total_idx + INDEX_BUFFER_SLACK) as usize,
                serial: b.ibcount,
                desc: spec_index_buffer_desc((total_idx + INDEX_BUFFER_SLACK) as usize),
            },
        ]
    } else {
        Seq::empty()
    };
    vtx_ops + idx_ops
}

/// The full render-state setup bound for a frame served by slot state `b`.
pub open spec fn spec_render_state(b: RenderBuffers, dd: DrawData) -> RenderStateDesc {
    RenderStateDesc {
        display_pos: dd.display_pos,
        display_size: dd.display_size,
        vertex_buffer_bytes: (b.vertex_buffer_size * VERTEX_STRIDE) as usize,
        vertex_stride: VERTEX_STRIDE,
        index_buffer_bytes: (b.index_buffer_size * INDEX_STRIDE) as usize,
        index_format: spec_index_format(INDEX_STRIDE as int),
    }
}

impl RenderBuffers {
    /// Capacities, once a buffer exists, describe byte sizes the machine
    /// can address.
    pub open spec fn wf(self) -> bool {
        &&& self.vertex_buffer_allocated ==> self.vertex_buffer_size * VERTEX_STRIDE
            <= usize::MAX
        &&& self.index_buffer_allocated ==> self.index_buffer_size * INDEX_STRIDE <= usize::MAX
    }

    /// A fresh slot: no buffers yet.
    pub fn empty() -> (b: RenderBuffers)
        ensures
            b == (RenderBuffers {
                vertex_buffer_allocated: false,
                index_buffer_allocated: false,
                vertex_buffer_size: 0,
                index_buffer_size: 0,
                vbcount: 0,
                ibcount: 0,
            }),
    {
        RenderBuffers {
            vertex_buffer_allocated: false,
            index_buffer_allocated: false,
            vertex_buffer_size: 0,
            index_buffer_size: 0,
            vbcount: 0,
            ibcount: 0,
        }
    }

    /// Apply the growth decisions for a frame with these totals, pushing
    /// the buffer-creation operations for the host.
    pub fn grow(&mut self, slot: usize, total_vtx: usize, total_idx: usize) -> (ops: Vec<GpuOp>)
        requires
            old(self).wf(),
            totals_fit(total_vtx, total_idx),
        ensures
            *final(self) == spec_grow(*old(self), total_vtx, total_idx),
            final(self).wf(),
            ops@ == spec_alloc_ops(*old(self), slot, total_vtx, total_idx),
    {
        let mut ops: Vec<GpuOp> = Vec::new();

        if !self.vertex_buffer_allocated || self.vertex_buffer_size < total_vtx {
            let capacity: usize = total_vtx + VERTEX_BUFFER_SLACK;
            self.vertex_buffer_allocated = true;
            self.vertex_buffer_size = capacity;
            ops.push(GpuOp::CreateVertexBuffer {
                slot,
                capacity,
                serial: self.vbcount,
                desc: BufferDesc {
                    byte_size: capacity * VERTEX_STRIDE,
                    heap: HeapType::UploadHeap,
                    initial_state: ResourceState::GenericRead,
                },
            });
            if self.vbcount < usize::MAX {
                self.vbcount = self.vbcount + 1;
            }
        }

        if !self.index_buffer_allocated || self.index_buffer_size < total_idx {
            let capacity: usize = total_idx + INDEX_BUFFER_SLACK;
            self.index_buffer_allocated = true;
            self.index_buffer_size = capacity;
            ops.push(GpuOp::CreateIndexBuffer {
                slot,
                capacity,
                serial: self.ibcount,
                desc: BufferDesc {
                    byte_size: capacity * INDEX_STRIDE,
                    heap: HeapType::UploadHeap,
                    initial_state: ResourceState::GenericRead,
                },
            });
            if self.ibcount < usize::MAX {
                self.ibcount = self.ibcount + 1;
            }
        }

        ops
    }
}

/// The whole operation stream of one frame served by slot `slot`:
/// buffer creations as needed, the geometry upload, the render-state
/// setup, then the draw-command walk.
pub open spec fn spec_frame_ops(b: RenderBuffers, slot: usize, dd: DrawData) -> Seq<GpuOp> {
    let after = spec_grow(b, dd.total_vtx_count, dd.total_idx_count);
    let rs = spec_render_state(after, dd);
    spec_alloc_ops(b, slot, dd.total_vtx_count, dd.total_idx_count) + seq![
        GpuOp::UploadGeometry { slot },
        GpuOp::SetRenderState { state: rs },
    ] + spec_lists_ops(dd.display_pos, rs, dd.lists@, 0, 0, 0)
}

/// Clamp into the `i32` range.
fn clamp_to_i32(v: i64) -> (r: i32)
    ensures
        r as int == spec_clamp_i32(v as int),
{
    if v < i32::MIN as i64 {
        i32::MIN
    } else if v > i32::MAX as i64 {
        i32::MAX
    } else {
        v as i32
    }
}

/// Concatenate the draw-lists' vertex and index arrays in list order.
pub fn merge_geometry(lists: &Vec<DrawList>) -> (r: (Vec<u8>, Vec<u16>))
    ensures
        r.0@ == merged_vtx_bytes(lists@),
        r.1@ == merged_indices(lists@),
{
    let mut vtx: Vec<u8> = Vec::new();
    let mut idx: Vec<u16> = Vec::new();
    let n: usize = lists.len();
    let mut i: usize = 0;
    while i < n
        invariant
            n == lists@.len(),
            i <= n,
            vtx@ == merged_vtx_bytes(lists@.take(i as int)),
            idx@ == merged_indices(lists@.take(i as int)),
        decreases n - i,
    {
        let list = &lists[i];
        let ghost vtx_before = vtx@;
        let mut j: usize = 0;
        while j < list.vtx_data.len()
            invariant
                j <= list.vtx_data@.len(),
                vtx@ == vtx_before + list.vtx_data@.take(j as int),
            decreases list.vtx_data@.len() - j,
        {
            vtx.push(list.vtx_data[j]);
            proof {
                assert(list.vtx_data@.take(j + 1) =~= list.vtx_data@.take(j as int).push(
                    list.vtx_data@[j as int],
                ));
            }
            j = j + 1;
        }
        let ghost idx_before = idx@;
        let mut k: usize = 0;
        while k < list.idx_data.len()
            invariant
                k <= list.idx_data@.len(),
                idx@ == idx_before + list.idx_data@.take(k as int),
            decreases list.idx_data@.len() - k,
        {
            idx.push(list.idx_data[k]);
            proof {
                assert(list.idx_data@.take(k + 1) =~= list.idx_data@.take(k as int).push(
                    list.idx_data@[k as int],
                ));
            }
            k = k + 1;
        }
        proof {
            lemma_merged_vtx_take_step(lists@, i as int);
            lemma_merged_idx_take_step(lists@, i as int);
            assert(list.vtx_data@.take(list.vtx_data@.len() as int) =~= list.vtx_data@);
            assert(list.idx_data@.take(list.idx_data@.len() as int) =~= list.idx_data@);
        }
        i = i + 1;
    }
    proof {
        assert(lists@.take(n as int) =~= lists@);
    }
    (vtx, idx)
}

/// Walk the draw-lists and commands in order, appending the emitted
/// operations: for each `Elements` command the clip test, texture bind,
/// scissor and indexed draw; a fresh render-state setup on
/// `ResetRenderState`; the opaque callback otherwise.
pub fn emit_draw_ops(
    pos: Vec2i,
    rs: RenderStateDesc,
    lists: &Vec<DrawList>,
    ops: &mut Vec<GpuOp>,
)
    requires
        forall|k: int| 0 <= k < lists@.len() ==> (#[trigger] lists@[k]).wf(),
        sum_vtx_counts(lists@) <= usize::MAX,
        sum_idx_counts(lists@) <= usize::MAX,
    ensures
        final(ops)@ == old(ops)@ + spec_lists_ops(pos, rs, lists@, 0, 0, 0),
{
    let ghost prefix: Seq<GpuOp> = ops@;
    let ghost full: Seq<GpuOp> = spec_lists_ops(pos, rs, lists@, 0, 0, 0);
    let n: usize = lists.len();
    let mut base_vtx: usize = 0;
    let mut base_idx: usize = 0;
    let mut i: usize = 0;
    proof {
        assert(lists@.skip(0) =~= lists@);
    }
    while i < n
        invariant
            n == lists@.len(),
            i <= n,
            forall|k: int| 0 <= k < lists@.len() ==> (#[trigger] lists@[k]).wf(),
            sum_vtx_counts(lists@) <= usize::MAX,
            sum_idx_counts(lists@) <= usize::MAX,
            base_vtx as int == sum_vtx_counts(lists@.take(i as int)),
            base_idx as int == sum_idx_counts(lists@.take(i as int)),
            full == spec_lists_ops(pos, rs, lists@, 0, 0, 0),
            prefix + full == ops@ + spec_lists_ops(
                pos,
                rs,
                lists@.skip(i as int),
                i,
                base_vtx,
                base_idx,
            ),
        decreases n - i,
    {
        proof {
            lemma_sum_vtx_take_step(lists@, i as int);
            lemma_sum_idx_take_step(lists@, i as int);
            lemma_sum_vtx_prefix_bound(lists@, i as int + 1);
            lemma_sum_idx_prefix_bound(lists@, i as int + 1);
            lemma_lists_ops_peel(pos, rs, lists@, i as int, base_vtx, base_idx);
        }
        let list = &lists[i];
        let ghost next_vtx: usize = (base_vtx + lists@[i as int].vtx_count()) as usize;
        let ghost next_idx: usize = (base_idx + lists@[i as int].idx_count()) as usize;
        let ghost rest: Seq<GpuOp> = spec_lists_ops(
            pos,
            rs,
            lists@.skip(i as int + 1),
            (i + 1) as usize,
            next_vtx,
            next_idx,
        );
        let m: usize = list.commands.len();
        let mut j: usize = 0;
        proof {
            assert(lists@[i as int].commands@.skip(0) =~= lists@[i as int].commands@);
            assert(prefix + full == ops@ + (spec_cmds_ops(
                pos,
                rs,
                lists@[i as int].commands@,
                i,
                base_vtx,
                base_idx,
            ) + rest));
        }
        while j < m
            invariant
                n == lists@.len(),
                i < n,
                m == lists@[i as int].commands@.len(),
                j <= m,
                forall|k: int| 0 <= k < lists@.len() ==> (#[trigger] lists@[k]).wf(),
                sum_vtx_counts(lists@) <= usize::MAX,
                sum_idx_counts(lists@) <= usize::MAX,
                base_vtx as int == sum_vtx_counts(lists@.take(i as int)),
                base_idx as int == sum_idx_counts(lists@.take(i as int)),
                prefix + full == ops@ + (spec_cmds_ops(
                    pos,
                    rs,
                    lists@[i as int].commands@.skip(j as int),
                    i,
                    base_vtx,
                    base_idx,
                ) + rest),
            decreases m - j,
        {
            proof {
                lemma_sum_vtx_take_step(lists@, i as int);
                lemma_sum_idx_take_step(lists@, i as int);
                lemma_sum_vtx_prefix_bound(lists@, i as int + 1);
                lemma_sum_idx_prefix_bound(lists@, i as int + 1);
                lemma_cmds_ops_peel(
                    pos,
                    rs,
                    lists@[i as int].commands@,
                    j as int,
                    i,
                    base_vtx,
                    base_idx,
                );
                assert(crate::draw_data::cmd_in_bounds(
                    lists@[i as int].commands@[j as int],
                    lists@[i as int].vtx_count(),
                    lists@[i as int].idx_count(),
                ));
            }
            let ghost ops_before = ops@;
            let ghost this_cmd_ops = spec_cmd_ops(
                pos,
                rs,
                lists@[i as int].commands@[j as int],
                i,
                base_vtx,
                base_idx,
            );
            match lists[i].commands[j] {
                DrawCmd::Elements { count, clip_rect, texture_id, vtx_offset, idx_offset } => {
                    let min_x: i64 = clip_rect.min_x as i64 - pos.x as i64;
                    let min_y: i64 = clip_rect.min_y as i64 - pos.y as i64;
                    let max_x: i64 = clip_rect.max_x as i64 - pos.x as i64;
                    let max_y: i64 = clip_rect.max_y as i64 - pos.y as i64;
                    if !(max_x <= min_x || max_y <= min_y) {
                        ops.push(GpuOp::BindTexture { texture_id });
                        ops.push(GpuOp::SetScissor {
                            left: clamp_to_i32(min_x),
                            top: clamp_to_i32(min_y),
                            right: clamp_to_i32(max_x),
                            bottom: clamp_to_i32(max_y),
                        });
                        ops.push(GpuOp::DrawIndexed {
                            index_count: count,
                            first_index: idx_offset + base_idx,
                            base_vertex: vtx_offset + base_vtx,
                        });
                    }
                },
                DrawCmd::ResetRenderState => {
                    ops.push(GpuOp::SetRenderState { state: rs });
                },
                DrawCmd::RawCallback { callback } => {
                    ops.push(GpuOp::InvokeCallback { list_index: i, callback });
                },
            }
            proof {
                assert(ops@ =~= ops_before + this_cmd_ops);
                assert(ops_before + (this_cmd_ops + (spec_cmds_ops(
                    pos,
                    rs,
                    lists@[i as int].commands@.skip(j as int + 1),
                    i,
                    base_vtx,
                    base_idx,
                ) + rest)) =~= (ops_before + this_cmd_ops) + (spec_cmds_ops(
                    pos,
                    rs,
                    lists@[i as int].commands@.skip(j as int + 1),
                    i,
                    base_vtx,
                    base_idx,
                ) + rest));
            }
            j = j + 1;
        }
        proof {
            lemma_sum_vtx_take_step(lists@, i as int);
            lemma_sum_idx_take_step(lists@, i as int);
            lemma_sum_vtx_prefix_bound(lists@, i as int + 1);
            lemma_sum_idx_prefix_bound(lists@, i as int + 1);
            assert(lists@[i as int].commands@.skip(m as int) =~= Seq::<DrawCmd>::empty());
            assert(spec_cmds_ops(pos, rs, Seq::<DrawCmd>::empty(), i, base_vtx, base_idx)
                =~= Seq::<GpuOp>::empty());
            assert(Seq::<GpuOp>::empty() + rest =~= rest);
        }
        let num_verts: usize = list.vtx_data.len() / VERTEX_STRIDE;
        let num_idx: usize = list.idx_data.len();
        base_vtx = base_vtx + num_verts;
        base_idx = base_idx + num_idx;
        i = i + 1;
    }
    proof {
        assert(lists@.skip(n as int) =~= Seq::<DrawList>::empty());
        assert(spec_lists_ops(pos, rs, Seq::<DrawList>::empty(), n, base_vtx, base_idx)
            =~= Seq::<GpuOp>::empty());
        assert(ops@ + Seq::<GpuOp>::empty() =~= ops@);
    }
}

impl RenderBuffers {
    /// The render-state setup for this slot and frame.
    fn render_state(&self, draw_data: &DrawData) -> (rs: RenderStateDesc)
        requires
            self.wf(),
            self.vertex_buffer_allocated,
            self.index_buffer_allocated,
        ensures
            rs == spec_render_state(*self, *draw_data),
    {
        RenderStateDesc {
            display_pos: draw_data.display_pos,
            display_size: draw_data.display_size,
            vertex_buffer_bytes: self.vertex_buffer_size * VERTEX_STRIDE,
            vertex_stride: VERTEX_STRIDE,
            index_buffer_bytes: self.index_buffer_size * INDEX_STRIDE,
            index_format: crate::ops::IndexFormat::R16Uint,
        }
    }

    /// Serve one frame from this slot: grow the buffers as needed, merge
    /// the draw-lists' geometry for upload, and walk the draw commands.
    pub fn render_draw_data(&mut self, slot: usize, draw_data: &DrawData) -> (sub:
        FrameSubmission)
        requires
            old(self).wf(),
            draw_data.wf(),
            totals_fit(draw_data.total_vtx_count, draw_data.total_idx_count),
        ensures
            *final(self) == spec_grow(
                *old(self),
                draw_data.total_vtx_count,
                draw_data.total_idx_count,
            ),
            final(self).wf(),
            sub.vertex_bytes@ == merged_vtx_bytes(draw_data.lists@),
            sub.indices@ == merged_indices(draw_data.lists@),
            sub.ops@ == spec_frame_ops(*old(self), slot, *draw_data),
    {
        let mut ops = self.grow(slot, draw_data.total_vtx_count, draw_data.total_idx_count);
        let (vertex_bytes, indices) = merge_geometry(&draw_data.lists);
        ops.push(GpuOp::UploadGeometry { slot });
        let rs = self.render_state(draw_data);
        ops.push(GpuOp::SetRenderState { state: rs });
        emit_draw_ops(draw_data.display_pos, rs, &draw_data.lists, &mut ops);
        proof {
            assert(ops@ =~= spec_frame_ops(*old(self), slot, *draw_data));
        }
        FrameSubmission { vertex_bytes, indices, ops }
    }
}

/// A frame's merged geometry always fits the buffers after the growth
/// decisions: the uploaded vertex bytes fit the vertex buffer, and the
/// uploaded indices fit the index buffer, so the host's copies into the
/// mapped regions stay in bounds.
pub proof fn lemma_upload_fits(b: RenderBuffers, dd: DrawData)
    requires
        dd.wf(),
        totals_fit(dd.total_vtx_count, dd.total_idx_count),
    ensures
        merged_vtx_bytes(dd.lists@).len() <= spec_grow(
            b,
            dd.total_vtx_count,
            dd.total_idx_count,
        ).vertex_buffer_size * VERTEX_STRIDE,
        merged_indices(dd.lists@).len() <= spec_grow(
            b,
            dd.total_vtx_count,
            dd.total_idx_count,
        ).index_buffer_size,
{
    crate::draw_data::lemma_merged_vtx_len(dd.lists@);
    crate::draw_data::lemma_merged_idx_len(dd.lists@);
    let after = spec_grow(b, dd.total_vtx_count, dd.total_idx_count);
    assert(after.vertex_buffer_size >= dd.total_vtx_count);
    assert(after.index_buffer_size >= dd.total_idx_count);
    assert(VERTEX_STRIDE * dd.total_vtx_count <= after.vertex_buffer_size * VERTEX_STRIDE)
        by (nonlinear_arith)
        requires
            after.vertex_buffer_size >= dd.total_vtx_count,
    ;
}

// ------------------------------------------------------------------
// The growth law.
//
// `cap_step` is the growth rule applied once: a slot whose buffer is
// missing or smaller than the requested count allocates count + slack,
// and otherwise keeps what it has.  `spec_capacity_after` folds the rule
// over a whole history of per-frame counts, starting from an empty slot.
// `spec_grow_vtx` / `spec_grow_idx` above take exactly one `cap_step`
// (see `lemma_grow_is_cap_step`), so these lemmas describe the capacity
// of a slot across any sequence of frames it serves.
// ------------------------------------------------------------------

/// One application of the growth rule.
pub open spec fn cap_step(has_buffer: bool, cap: int, count: int, slack: int) -> int {
    if !has_buffer || cap < count {
        count + slack
    } else {
        cap
    }
}

/// Capacity of a slot after serving the frames of `counts` in order,
/// starting with no buffer.
pub open spec fn spec_capacity_after(counts: Seq<int>, slack: int) -> int
    decreases counts.len(),
{
    if counts.len() == 0 {
        0
    } else {
        cap_step(
            counts.len() > 1,
            spec_capacity_after(counts.drop_last(), slack),
            counts.last(),
            slack,
        )
    }
}

/// The executable growth decision takes exactly one `cap_step`.
pub proof fn lemma_grow_is_cap_step(b: RenderBuffers, total_vtx: usize, total_idx: usize)
    ensures
        spec_grow(b, total_vtx, total_idx).vertex_buffer_size as int == cap_step(
            b.vertex_buffer_allocated,
            b.vertex_buffer_size as int,
            total_vtx as int,
            VERTEX_BUFFER_SLACK as int,
        ) || !totals_fit(total_vtx, total_idx),
        spec_grow(b, total_vtx, total_idx).index_buffer_size as int == cap_step(
            b.index_buffer_allocated,
            b.index_buffer_size as int,
            total_idx as int,
            INDEX_BUFFER_SLACK as int,
        ) || !totals_fit(total_vtx, total_idx),
{
}

/// A slot's capacity never decreases.
pub proof fn lemma_capacity_never_decreases(counts: Seq<int>, slack: int)
    requires
        counts.len() >= 1,
        slack >= 0,
        forall|i: int| 0 <= i < counts.len() ==> counts[i] >= 0,
    ensures
        spec_capacity_after(counts.drop_last(), slack) <= spec_capacity_after(counts, slack),
{
}

/// A slot's capacity covers every count it has served so far.
pub proof fn lemma_capacity_covers_all(counts: Seq<int>, slack: int, i: int)
    requires
        0 <= i < counts.len(),
        slack >= 0,
        forall|k: int| 0 <= k < counts.len() ==> counts[k] >= 0,
    ensures
        counts[i] <= spec_capacity_after(counts, slack),
    decreases counts.len(),
{
    if i == counts.len() - 1 {
    } else {
        lemma_capacity_covers_all(counts.drop_last(), slack, i);
        lemma_capacity_never_decreases(counts, slack);
    }
}

/// The largest count served so far.
pub open spec fn spec_max_count(counts: Seq<int>) -> int
    decreases counts.len(),
{
    if counts.len() == 0 {
        0
    } else if spec_max_count(counts.drop_last()) >= counts.last() {
        spec_max_count(counts.drop_last())
    } else {
        counts.last()
    }
}

/// A slot's capacity stays within one slack of the largest count served:
/// together with `lemma_capacity_covers_all`, the capacity after any
/// history lies in `[max count, max count + slack]`.
pub proof fn lemma_capacity_within_slack(counts: Seq<int>, slack: int)
    requires
        counts.len() >= 1,
        slack >= 0,
        forall|k: int| 0 <= k < counts.len() ==> counts[k] >= 0,
    ensures
        spec_capacity_after(counts, slack) <= spec_max_count(counts) + slack,
    decreases counts.len(),
{
    if counts.len() > 1 {
        lemma_capacity_within_slack(counts.drop_last(), slack);
        lemma_max_count_step(counts);
    }
}

/// The maximum over a history is the maximum of its last count and the
/// maximum before it.
pub proof fn lemma_max_count_step(counts: Seq<int>)
    requires
        counts.len() >= 1,
    ensures
        spec_max_count(counts) >= spec_max_count(counts.drop_last()),
        spec_max_count(counts) >= counts.last(),
{
}

/// A slot's capacity is always one of the sizes the growth rule
/// allocates: some served count plus the slack.
pub proof fn lemma_capacity_is_a_guess(counts: Seq<int>, slack: int)
    requires
        counts.len() >= 1,
    ensures
        exists|i: int|
            0 <= i < counts.len() && spec_capacity_after(counts, slack) == counts[i] + slack,
    decreases counts.len(),
{
    if counts.len() == 1 {
        assert(spec_capacity_after(counts, slack) == counts[0] + slack);
    } else if spec_capacity_after(counts.drop_last(), slack) < counts.last() {
        assert(spec_capacity_after(counts, slack) == counts.last() + slack);
    } else {
        lemma_capacity_is_a_guess(counts.drop_last(), slack);
        let j = choose|j: int|
            0 <= j < counts.drop_last().len() && spec_capacity_after(counts.drop_last(), slack)
                == counts.drop_last()[j] + slack;
        assert(counts[j] == counts.drop_last()[j]);
    }
}

/// Where each new frame outgrows every earlier count by more than the
/// slack, the rule reallocates every frame and the capacity is exactly
/// the latest (largest) count plus the slack — the smallest allocation
/// of that form covering the maximum count seen.
pub proof fn lemma_capacity_exact_when_outgrown(counts: Seq<int>, slack: int)
    requires
        counts.len() >= 1,
        forall|j: int| 0 <= j < counts.len() - 1 ==> counts[j] + slack < counts.last(),
    ensures
        spec_capacity_after(counts, slack) == counts.last() + slack,
{
    if counts.len() > 1 {
        lemma_capacity_is_a_guess(counts.drop_last(), slack);
        let j = choose|j: int|
            0 <= j < counts.drop_last().len() && spec_capacity_after(counts.drop_last(), slack)
                == counts.drop_last()[j] + slack;
        assert(counts[j] == counts.drop_last()[j]);
        assert(spec_capacity_after(counts.drop_last(), slack) < counts.last());
    }
}

} // verus!
