//! Model of one frame's draw data.
//!
//! The UI library supplies, once per rendered frame, a display origin and
//! size and an ordered sequence of draw-lists; each draw-list carries a
//! vertex array, an index array and an ordered sequence of draw commands.
//! The renderer reads this snapshot only; it is never retained past the
//! call.  Vertex records are kept as raw bytes (their fields are floats the
//! GPU consumes directly); everything the renderer itself inspects —
//! counts, offsets, clip rectangles, texture identifiers — is a plain
//! value.  Coordinates are framebuffer-space pixels.

use vstd::prelude::*;

verus! {

/// Byte size of one vertex record: 2D position (two 32-bit floats), 2D
/// texture coordinate (two 32-bit floats), packed RGBA color (one byte per
/// channel).
pub const VERTEX_STRIDE: usize = 20;

/// Byte size of one index element (16-bit indices).
pub const INDEX_STRIDE: usize = 2;

/// A point or extent in framebuffer space.
#[derive(Clone, Copy, PartialEq, Eq, Structural, Debug)]
pub struct Vec2i {
    pub x: i32,
    pub y: i32,
}

/// An axis-aligned clip rectangle in the UI library's coordinate space
/// (not yet translated by the display origin).
#[derive(Clone, Copy, PartialEq, Eq, Structural, Debug)]
pub struct ClipRect {
    pub min_x: i32,
    pub min_y: i32,
    pub max_x: i32,
    pub max_y: i32,
}

/// One draw command of a draw-list.
#[derive(Clone, Copy, PartialEq, Eq, Structural, Debug)]
pub enum DrawCmd {
    /// Draw `count` indices with a clip rectangle and a bound texture.
    /// `vtx_offset` and `idx_offset` are the command's own offsets into
    /// its draw-list's vertex and index arrays.
    Elements {
        count: usize,
        clip_rect: ClipRect,
        texture_id: u64,
        vtx_offset: usize,
        idx_offset: usize,
    },
    /// Re-apply the full render-state setup.
    ResetRenderState,
    /// Invoke an opaque embedder callback, identified by a token the
    /// renderer does not interpret.
    RawCallback { callback: u64 },
}

/// One draw-list: a batch of vertices, indices and commands.
pub struct DrawList {
    /// Raw vertex records, `VERTEX_STRIDE` bytes each.
    pub vtx_data: Vec<u8>,
    /// Index elements, local to this list's vertex array.
    pub idx_data: Vec<u16>,
    /// Commands, in submission order.
    pub commands: Vec<DrawCmd>,
}

/// Does a command stay inside a list with `vtx_count` vertices and
/// `idx_count` indices?
pub open spec fn cmd_in_bounds(cmd: DrawCmd, vtx_count: int, idx_count: int) -> bool {
    match cmd {
        DrawCmd::Elements { count, vtx_offset, idx_offset, .. } => {
            &&& idx_offset + count <= idx_count
            &&& vtx_offset <= vtx_count
        },
        _ => true,
    }
}

impl DrawList {
    /// Number of vertex records held.
    pub open spec fn vtx_count(self) -> int {
        self.vtx_data@.len() as int / VERTEX_STRIDE as int
    }

    /// Number of index elements held.
    pub open spec fn idx_count(self) -> int {
        self.idx_data@.len() as int
    }

    pub open spec fn wf(self) -> bool {
        &&& self.vtx_data@.len() as int % (VERTEX_STRIDE as int) == 0
        &&& forall|i: int|
            0 <= i < self.commands@.len() ==> cmd_in_bounds(
                #[trigger] self.commands@[i],
                self.vtx_count(),
                self.idx_count(),
            )
    }
}

/// Total vertex count of a sequence of draw-lists.
pub open spec fn sum_vtx_counts(lists: Seq<DrawList>) -> int
    decreases lists.len(),
{
    if lists.len() == 0 {
        0
    } else {
        sum_vtx_counts(lists.drop_last()) + lists.last().vtx_count()
    }
}

/// Total index count of a sequence of draw-lists.
pub open spec fn sum_idx_counts(lists: Seq<DrawList>) -> int
    decreases lists.len(),
{
    if lists.len() == 0 {
        0
    } else {
        sum_idx_counts(lists.drop_last()) + lists.last().idx_count()
    }
}

/// All vertex arrays concatenated in list order.
pub open spec fn merged_vtx_bytes(lists: Seq<DrawList>) -> Seq<u8>
    decreases lists.len(),
{
    if lists.len() == 0 {
        Seq::empty()
    } else {
        merged_vtx_bytes(lists.drop_last()) + lists.last().vtx_data@
    }
}

/// All index arrays concatenated in list order.
pub open spec fn merged_indices(lists: Seq<DrawList>) -> Seq<u16>
    decreases lists.len(),
{
    if lists.len() == 0 {
        Seq::empty()
    } else {
        merged_indices(lists.drop_last()) + lists.last().idx_data@
    }
}

/// One frame's draw data, as handed over by the UI library.
pub struct DrawData {
    /// Top-left corner of the visible UI space.
    pub display_pos: Vec2i,
    /// Size of the visible UI space; a frame with a dimension of zero or
    /// less is degenerate and is not rendered.
    pub display_size: Vec2i,
    /// Sum of the draw-lists' vertex counts.
    pub total_vtx_count: usize,
    /// Sum of the draw-lists' index counts.
    pub total_idx_count: usize,
    /// The draw-lists, in submission order.
    pub lists: Vec<DrawList>,
}

impl DrawData {
    pub open spec fn wf(self) -> bool {
        &&& forall|i: int| 0 <= i < self.lists@.len() ==> (#[trigger] self.lists@[i]).wf()
        &&& self.total_vtx_count == sum_vtx_counts(self.lists@)
        &&& self.total_idx_count == sum_idx_counts(self.lists@)
    }

    /// A degenerate (for instance minimized) display: rendering is skipped.
    pub open spec fn degenerate(self) -> bool {
        self.display_size.x <= 0 || self.display_size.y <= 0
    }
}

/// Extending a prefix of lists by one list extends the vertex sum by that
/// list's count.
pub proof fn lemma_sum_vtx_take_step(lists: Seq<DrawList>, i: int)
    requires
        0 <= i < lists.len(),
    ensures
        sum_vtx_counts(lists.take(i + 1)) == sum_vtx_counts(lists.take(i)) + lists[i].vtx_count(),
{
    assert(lists.take(i + 1).drop_last() =~= lists.take(i));
    assert(lists.take(i + 1).last() == lists[i]);
}

/// Extending a prefix of lists by one list extends the index sum by that
/// list's count.
pub proof fn lemma_sum_idx_take_step(lists: Seq<DrawList>, i: int)
    requires
        0 <= i < lists.len(),
    ensures
        sum_idx_counts(lists.take(i + 1)) == sum_idx_counts(lists.take(i)) + lists[i].idx_count(),
{
    assert(lists.take(i + 1).drop_last() =~= lists.take(i));
    assert(lists.take(i + 1).last() == lists[i]);
}

/// Same step fact for the merged vertex bytes.
pub proof fn lemma_merged_vtx_take_step(lists: Seq<DrawList>, i: int)
    requires
        0 <= i < lists.len(),
    ensures
        merged_vtx_bytes(lists.take(i + 1)) == merged_vtx_bytes(lists.take(i))
            + lists[i].vtx_data@,
{
    assert(lists.take(i + 1).drop_last() =~= lists.take(i));
    assert(lists.take(i + 1).last() == lists[i]);
}

/// Same step fact for the merged indices.
pub proof fn lemma_merged_idx_take_step(lists: Seq<DrawList>, i: int)
    requires
        0 <= i < lists.len(),
    ensures
        merged_indices(lists.take(i + 1)) == merged_indices(lists.take(i)) + lists[i].idx_data@,
{
    assert(lists.take(i + 1).drop_last() =~= lists.take(i));
    assert(lists.take(i + 1).last() == lists[i]);
}

/// Every prefix vertex sum is at most the whole sum, and sums are
/// non-negative.
pub proof fn lemma_sum_vtx_prefix_bound(lists: Seq<DrawList>, i: int)
    requires
        0 <= i <= lists.len(),
    ensures
        0 <= sum_vtx_counts(lists.take(i)) <= sum_vtx_counts(lists),
    decreases lists.len() - i,
{
    if i == lists.len() {
        assert(lists.take(i) =~= lists);
        lemma_sum_vtx_nonneg(lists);
    } else {
        lemma_sum_vtx_take_step(lists, i);
        lemma_sum_vtx_prefix_bound(lists, i + 1);
        lemma_sum_vtx_nonneg(lists.take(i));
    }
}

/// Every prefix index sum is at most the whole sum, and sums are
/// non-negative.
pub proof fn lemma_sum_idx_prefix_bound(lists: Seq<DrawList>, i: int)
    requires
        0 <= i <= lists.len(),
    ensures
        0 <= sum_idx_counts(lists.take(i)) <= sum_idx_counts(lists),
    decreases lists.len() - i,
{
    if i == lists.len() {
        assert(lists.take(i) =~= lists);
        lemma_sum_idx_nonneg(lists);
    } else {
        lemma_sum_idx_take_step(lists, i);
        lemma_sum_idx_prefix_bound(lists, i + 1);
        lemma_sum_idx_nonneg(lists.take(i));
    }
}

/// The merged vertex bytes of well-formed lists hold exactly
/// `VERTEX_STRIDE` bytes per counted vertex.
pub proof fn lemma_merged_vtx_len(lists: Seq<DrawList>)
    requires
        forall|i: int| 0 <= i < lists.len() ==> (#[trigger] lists[i]).wf(),
    ensures
        merged_vtx_bytes(lists).len() == VERTEX_STRIDE * sum_vtx_counts(lists),
    decreases lists.len(),
{
    if lists.len() == 0 {
    } else {
        assert(forall|i: int|
            0 <= i < lists.drop_last().len() ==> (#[trigger] lists.drop_last()[i]).wf());
        lemma_merged_vtx_len(lists.drop_last());
        assert(lists.last().wf());
        assert(lists.last().vtx_data@.len() == VERTEX_STRIDE * lists.last().vtx_count());
    }
}

/// The merged indices of any lists hold exactly one element per counted
/// index.
pub proof fn lemma_merged_idx_len(lists: Seq<DrawList>)
    ensures
        merged_indices(lists).len() == sum_idx_counts(lists),
    decreases lists.len(),
{
    if lists.len() > 0 {
        lemma_merged_idx_len(lists.drop_last());
    }
}

pub proof fn lemma_sum_vtx_nonneg(lists: Seq<DrawList>)
    ensures
        sum_vtx_counts(lists) >= 0,
    decreases lists.len(),
{
    if lists.len() > 0 {
        lemma_sum_vtx_nonneg(lists.drop_last());
    }
}

pub proof fn lemma_sum_idx_nonneg(lists: Seq<DrawList>)
    ensures
        sum_idx_counts(lists) >= 0,
    decreases lists.len(),
{
    if lists.len() > 0 {
        lemma_sum_idx_nonneg(lists.drop_last());
    }
}

} // verus!
