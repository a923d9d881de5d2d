//! Buffer-slot growth tests.

use imgui_d3d12_renderer::buffers::{RenderBuffers, INDEX_BUFFER_SLACK, VERTEX_BUFFER_SLACK};

/// Run one frame's growth decision and return the emitted operation count.
fn grow(slot: &mut RenderBuffers, total_vtx: usize, total_idx: usize) -> usize {
    slot.grow(0, total_vtx, total_idx).len()
}

#[test]
fn first_use_allocates_count_plus_slack() {
    let mut slot = RenderBuffers::empty();
    let ops = grow(&mut slot, 100, 300);
    assert_eq!(ops, 2);
    assert!(slot.vertex_buffer_allocated);
    assert!(slot.index_buffer_allocated);
    assert_eq!(slot.vertex_buffer_size, 100 + VERTEX_BUFFER_SLACK);
    assert_eq!(slot.index_buffer_size, 300 + INDEX_BUFFER_SLACK);
    assert_eq!(slot.vbcount, 1);
    assert_eq!(slot.ibcount, 1);
}

#[test]
fn capacity_never_decreases_over_non_decreasing_counts() {
    let mut slot = RenderBuffers::empty();
    let counts = [100usize, 100, 2000, 4000, 4000, 5200, 20000];
    let mut max_seen: usize = 0;
    let mut previous_capacity: usize = 0;
    for &count in &counts {
        grow(&mut slot, count, count);
        max_seen = max_seen.max(count);
        // Never shrinks.
        assert!(slot.vertex_buffer_size >= previous_capacity);
        // Covers everything seen, within one slack of the maximum.
        assert!(slot.vertex_buffer_size >= max_seen);
        assert!(slot.vertex_buffer_size <= max_seen + VERTEX_BUFFER_SLACK);
        previous_capacity = slot.vertex_buffer_size;
    }
}

#[test]
fn sufficient_capacity_is_kept() {
    let mut slot = RenderBuffers::empty();
    grow(&mut slot, 1000, 1000);
    let vertex_capacity = slot.vertex_buffer_size;
    let index_capacity = slot.index_buffer_size;
    // Smaller and equal frames reuse the buffers: no operations emitted.
    assert_eq!(grow(&mut slot, 500, 200), 0);
    assert_eq!(grow(&mut slot, 1000, 1000), 0);
    assert_eq!(grow(&mut slot, vertex_capacity, index_capacity), 0);
    assert_eq!(slot.vertex_buffer_size, vertex_capacity);
    assert_eq!(slot.index_buffer_size, index_capacity);
    assert_eq!(slot.vbcount, 1);
    assert_eq!(slot.ibcount, 1);
}

#[test]
fn outgrown_buffer_is_replaced_wholesale() {
    let mut slot = RenderBuffers::empty();
    grow(&mut slot, 10, 10);
    // One past the capacity forces a reallocation sized to the new count.
    let over_vertex = slot.vertex_buffer_size + 1;
    let over_index = slot.index_buffer_size + 1;
    let ops = grow(&mut slot, over_vertex, over_index);
    assert_eq!(ops, 2);
    assert_eq!(slot.vertex_buffer_size, over_vertex + VERTEX_BUFFER_SLACK);
    assert_eq!(slot.index_buffer_size, over_index + INDEX_BUFFER_SLACK);
    assert_eq!(slot.vbcount, 2);
    assert_eq!(slot.ibcount, 2);
}

#[test]
fn vertex_and_index_buffers_grow_independently() {
    let mut slot = RenderBuffers::empty();
    grow(&mut slot, 100, 100);
    // Only the index count outgrows its buffer.
    let ops = grow(&mut slot, 100, 100 + INDEX_BUFFER_SLACK + 1);
    assert_eq!(ops, 1);
    assert_eq!(slot.vbcount, 1);
    assert_eq!(slot.ibcount, 2);
}
