//! Frame-rendering scenarios through the public façade.

use imgui_d3d12_renderer::buffers::{INDEX_BUFFER_SLACK, VERTEX_BUFFER_SLACK};
use imgui_d3d12_renderer::draw_data::{ClipRect, DrawCmd, DrawData, DrawList, Vec2i};
use imgui_d3d12_renderer::font::FontAtlas;
use imgui_d3d12_renderer::ops::GpuOp;
use imgui_d3d12_renderer::renderer::{DeviceObjectsOutcome, Renderer};

const RTV_FORMAT: i32 = 28;
const FONT_SRV_CPU: u64 = 0x100;
const FONT_SRV_GPU: u64 = 0x200;

fn ui_context() -> imgui::Context {
    let mut context = imgui::Context::create();
    context.set_ini_filename(None);
    context
}

fn test_renderer(frames_in_flight: usize) -> Renderer {
    let mut context = ui_context();
    let mut renderer = Renderer::new(
        &mut context,
        frames_in_flight,
        RTV_FORMAT,
        FONT_SRV_CPU,
        FONT_SRV_GPU,
    );
    let atlas = FontAtlas {
        width: 2,
        height: 2,
        data: vec![0xffu8; 16],
    };
    match renderer.create_device_objects_from_atlas(&atlas) {
        DeviceObjectsOutcome::Prepared(_) => {}
        _ => panic!("device objects should be built for a 2x2 atlas"),
    }
    renderer
}

fn quad_list(clip: ClipRect, texture_id: u64) -> DrawList {
    DrawList {
        vtx_data: vec![0u8; 4 * 20],
        idx_data: vec![0, 1, 2, 0, 2, 3],
        commands: vec![DrawCmd::Elements {
            count: 6,
            clip_rect: clip,
            texture_id,
            vtx_offset: 0,
            idx_offset: 0,
        }],
    }
}

fn quad_draw_data(clip: ClipRect, texture_id: u64) -> DrawData {
    DrawData {
        display_pos: Vec2i { x: 0, y: 0 },
        display_size: Vec2i { x: 800, y: 600 },
        total_vtx_count: 4,
        total_idx_count: 6,
        lists: vec![quad_list(clip, texture_id)],
    }
}

fn draw_calls(ops: &[GpuOp]) -> Vec<GpuOp> {
    ops.iter()
        .filter(|op| matches!(op, GpuOp::DrawIndexed { .. }))
        .cloned()
        .collect()
}

#[test]
fn degenerate_display_is_a_no_op() {
    let mut renderer = test_renderer(2);
    let mut draw_data = quad_draw_data(
        ClipRect {
            min_x: 0,
            min_y: 0,
            max_x: 800,
            max_y: 600,
        },
        FONT_SRV_GPU,
    );
    draw_data.display_size = Vec2i { x: 0, y: 100 };
    let frame_index_before = renderer.frame_index;
    let sub = renderer.render_draw_data(&draw_data);
    assert!(sub.ops.is_empty());
    assert!(sub.vertex_bytes.is_empty());
    assert!(sub.indices.is_empty());
    assert_eq!(renderer.frame_index, frame_index_before);
    let objects = renderer.device_objects.as_ref().unwrap();
    for slot in &objects.frame_resources {
        assert!(!slot.vertex_buffer_allocated);
        assert!(!slot.index_buffer_allocated);
        assert_eq!(slot.vertex_buffer_size, 0);
        assert_eq!(slot.index_buffer_size, 0);
    }
}

#[test]
fn fully_clipped_command_issues_no_draw() {
    let mut renderer = test_renderer(2);
    // After translating by the display origin, max.x <= min.x.
    let draw_data = quad_draw_data(
        ClipRect {
            min_x: 100,
            min_y: 0,
            max_x: 100,
            max_y: 600,
        },
        FONT_SRV_GPU,
    );
    let sub = renderer.render_draw_data(&draw_data);
    assert!(draw_calls(&sub.ops).is_empty());
    assert!(!sub
        .ops
        .iter()
        .any(|op| matches!(op, GpuOp::SetScissor { .. } | GpuOp::BindTexture { .. })));
}

#[test]
fn inverted_vertical_clip_issues_no_draw() {
    let mut renderer = test_renderer(2);
    let draw_data = quad_draw_data(
        ClipRect {
            min_x: 0,
            min_y: 500,
            max_x: 800,
            max_y: 400,
        },
        FONT_SRV_GPU,
    );
    let sub = renderer.render_draw_data(&draw_data);
    assert!(draw_calls(&sub.ops).is_empty());
}

#[test]
fn single_quad_yields_one_draw_call() {
    let mut renderer = test_renderer(2);
    let draw_data = quad_draw_data(
        ClipRect {
            min_x: 0,
            min_y: 0,
            max_x: 800,
            max_y: 600,
        },
        FONT_SRV_GPU,
    );
    let sub = renderer.render_draw_data(&draw_data);
    assert_eq!(sub.vertex_bytes.len(), 4 * 20);
    assert_eq!(sub.indices, vec![0, 1, 2, 0, 2, 3]);
    let draws = draw_calls(&sub.ops);
    assert_eq!(
        draws,
        vec![GpuOp::DrawIndexed {
            index_count: 6,
            first_index: 0,
            base_vertex: 0,
        }]
    );
    assert!(sub
        .ops
        .iter()
        .any(|op| matches!(op, GpuOp::BindTexture { texture_id } if *texture_id == FONT_SRV_GPU)));
    assert!(sub.ops.iter().any(|op| matches!(
        op,
        GpuOp::SetScissor {
            left: 0,
            top: 0,
            right: 800,
            bottom: 600,
        }
    )));
}

#[test]
fn three_frames_rotate_slots_zero_one_zero() {
    let mut renderer = test_renderer(2);
    let clip = ClipRect {
        min_x: 0,
        min_y: 0,
        max_x: 800,
        max_y: 600,
    };
    let draw_data = quad_draw_data(clip, FONT_SRV_GPU);

    let first = renderer.render_draw_data(&draw_data);
    assert_eq!(renderer.frame_index, 0);
    assert!(first
        .ops
        .iter()
        .any(|op| matches!(op, GpuOp::UploadGeometry { slot: 0 })));
    assert!(first
        .ops
        .iter()
        .any(|op| matches!(op, GpuOp::CreateVertexBuffer { slot: 0, .. })));

    let second = renderer.render_draw_data(&draw_data);
    assert_eq!(renderer.frame_index, 1);
    assert!(second
        .ops
        .iter()
        .any(|op| matches!(op, GpuOp::UploadGeometry { slot: 1 })));
    assert!(second
        .ops
        .iter()
        .any(|op| matches!(op, GpuOp::CreateVertexBuffer { slot: 1, .. })));

    let third = renderer.render_draw_data(&draw_data);
    assert_eq!(renderer.frame_index, 2);
    assert!(third
        .ops
        .iter()
        .any(|op| matches!(op, GpuOp::UploadGeometry { slot: 0 })));
    // Slot 0 already has room: no buffer is recreated for the third frame.
    assert!(!third
        .ops
        .iter()
        .any(|op| matches!(op, GpuOp::CreateVertexBuffer { .. } | GpuOp::CreateIndexBuffer { .. })));
}

#[test]
fn first_frame_allocates_with_slack() {
    let mut renderer = test_renderer(1);
    let clip = ClipRect {
        min_x: 0,
        min_y: 0,
        max_x: 800,
        max_y: 600,
    };
    let draw_data = quad_draw_data(clip, FONT_SRV_GPU);
    let sub = renderer.render_draw_data(&draw_data);
    let objects = renderer.device_objects.as_ref().unwrap();
    assert_eq!(
        objects.frame_resources[0].vertex_buffer_size,
        4 + VERTEX_BUFFER_SLACK
    );
    assert_eq!(
        objects.frame_resources[0].index_buffer_size,
        6 + INDEX_BUFFER_SLACK
    );
    assert!(sub.ops.iter().any(|op| matches!(
        op,
        GpuOp::CreateVertexBuffer { capacity, .. } if *capacity == 4 + VERTEX_BUFFER_SLACK
    )));
    assert!(sub.ops.iter().any(|op| matches!(
        op,
        GpuOp::CreateIndexBuffer { capacity, .. } if *capacity == 6 + INDEX_BUFFER_SLACK
    )));
}

#[test]
fn two_lists_accumulate_offsets() {
    let mut renderer = test_renderer(1);
    let clip = ClipRect {
        min_x: 0,
        min_y: 0,
        max_x: 800,
        max_y: 600,
    };
    let list_a = quad_list(clip, FONT_SRV_GPU);
    let list_b = quad_list(clip, 0x999);
    let draw_data = DrawData {
        display_pos: Vec2i { x: 0, y: 0 },
        display_size: Vec2i { x: 800, y: 600 },
        total_vtx_count: 8,
        total_idx_count: 12,
        lists: vec![list_a, list_b],
    };
    let sub = renderer.render_draw_data(&draw_data);
    assert_eq!(sub.vertex_bytes.len(), 8 * 20);
    assert_eq!(sub.indices.len(), 12);
    let draws = draw_calls(&sub.ops);
    assert_eq!(
        draws,
        vec![
            GpuOp::DrawIndexed {
                index_count: 6,
                first_index: 0,
                base_vertex: 0,
            },
            GpuOp::DrawIndexed {
                index_count: 6,
                first_index: 6,
                base_vertex: 4,
            },
        ]
    );
}

#[test]
fn display_origin_translates_scissor() {
    let mut renderer = test_renderer(1);
    let clip = ClipRect {
        min_x: 110,
        min_y: 220,
        max_x: 410,
        max_y: 520,
    };
    let mut draw_data = quad_draw_data(clip, FONT_SRV_GPU);
    draw_data.display_pos = Vec2i { x: 100, y: 200 };
    let sub = renderer.render_draw_data(&draw_data);
    assert!(sub.ops.iter().any(|op| matches!(
        op,
        GpuOp::SetScissor {
            left: 10,
            top: 20,
            right: 310,
            bottom: 320,
        }
    )));
}

#[test]
fn reset_render_state_command_reapplies_setup() {
    let mut renderer = test_renderer(1);
    let list = DrawList {
        vtx_data: vec![],
        idx_data: vec![],
        commands: vec![DrawCmd::ResetRenderState, DrawCmd::RawCallback { callback: 7 }],
    };
    let draw_data = DrawData {
        display_pos: Vec2i { x: 0, y: 0 },
        display_size: Vec2i { x: 640, y: 480 },
        total_vtx_count: 0,
        total_idx_count: 0,
        lists: vec![list],
    };
    let sub = renderer.render_draw_data(&draw_data);
    let set_states = sub
        .ops
        .iter()
        .filter(|op| matches!(op, GpuOp::SetRenderState { .. }))
        .count();
    // Once from the per-frame setup, once from the reset command.
    assert_eq!(set_states, 2);
    assert!(sub.ops.iter().any(|op| matches!(
        op,
        GpuOp::InvokeCallback {
            list_index: 0,
            callback: 7,
        }
    )));
}

#[test]
fn render_without_device_objects_is_a_no_op() {
    let mut context = ui_context();
    let mut renderer = Renderer::new(&mut context, 2, RTV_FORMAT, FONT_SRV_CPU, FONT_SRV_GPU);
    let draw_data = quad_draw_data(
        ClipRect {
            min_x: 0,
            min_y: 0,
            max_x: 800,
            max_y: 600,
        },
        FONT_SRV_GPU,
    );
    let sub = renderer.render_draw_data(&draw_data);
    assert!(sub.ops.is_empty());
    assert_eq!(renderer.frame_index, usize::MAX);
}
