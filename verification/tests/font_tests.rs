//! Font-atlas upload layout tests.

use imgui_d3d12_renderer::font::{
    aligned_pitch, build_font_upload, extract_atlas_bytes, FontAtlas,
};
use imgui_d3d12_renderer::ops::{HeapType, ResourceState};

#[test]
fn pitch_is_rounded_up_to_alignment() {
    assert_eq!(aligned_pitch(0), 0);
    assert_eq!(aligned_pitch(1), 256);
    assert_eq!(aligned_pitch(12), 256);
    assert_eq!(aligned_pitch(256), 256);
    assert_eq!(aligned_pitch(257), 512);
    assert_eq!(aligned_pitch(1024), 1024);
}

#[test]
fn upload_pads_each_row_to_the_pitch() {
    // 3 pixels per row: 12 data bytes, padded to a 256-byte pitch.
    let data: Vec<u8> = (0..(12 * 2)).map(|v| v as u8).collect();
    let atlas = FontAtlas {
        width: 3,
        height: 2,
        data: data.clone(),
    };
    let upload = build_font_upload(&atlas).expect("a 3x2 atlas fits");
    assert_eq!(upload.pitch, 256);
    assert_eq!(upload.bytes.len(), 2 * 256);
    for row in 0..2 {
        for col in 0..12 {
            assert_eq!(upload.bytes[row * 256 + col], data[row * 12 + col]);
        }
        for col in 12..256 {
            assert_eq!(upload.bytes[row * 256 + col], 0);
        }
    }
}

#[test]
fn upload_round_trips_through_the_padded_buffer() {
    let data: Vec<u8> = (0..(5 * 4 * 3)).map(|v| (v * 7) as u8).collect();
    let atlas = FontAtlas {
        width: 5,
        height: 3,
        data: data.clone(),
    };
    let upload = build_font_upload(&atlas).expect("a 5x3 atlas fits");
    let read_back = extract_atlas_bytes(&upload.bytes, 5 * 4, upload.pitch, 3);
    assert_eq!(read_back, data);
}

#[test]
fn tightly_packed_pitch_round_trips_too() {
    // 64 pixels per row: 256 data bytes, already aligned — no padding.
    let data: Vec<u8> = (0..(64 * 4 * 2)).map(|v| (v % 251) as u8).collect();
    let atlas = FontAtlas {
        width: 64,
        height: 2,
        data: data.clone(),
    };
    let upload = build_font_upload(&atlas).expect("a 64x2 atlas fits");
    assert_eq!(upload.pitch, 256);
    assert_eq!(upload.bytes.len(), 512);
    assert_eq!(upload.bytes, data);
    let read_back = extract_atlas_bytes(&upload.bytes, 256, 256, 2);
    assert_eq!(read_back, data);
}

#[test]
fn empty_atlas_builds_an_empty_upload() {
    let atlas = FontAtlas {
        width: 0,
        height: 0,
        data: vec![],
    };
    let upload = build_font_upload(&atlas).expect("an empty atlas fits");
    assert_eq!(upload.pitch, 0);
    assert!(upload.bytes.is_empty());
}

#[test]
fn texture_plan_describes_the_one_shot_copy() {
    let atlas = FontAtlas {
        width: 3,
        height: 2,
        data: vec![9u8; 24],
    };
    let upload = build_font_upload(&atlas).expect("a 3x2 atlas fits");
    let plan = imgui_d3d12_renderer::font::font_texture_plan(&atlas, &upload);
    assert_eq!(plan.texture.width, 3);
    assert_eq!(plan.texture.height, 2);
    assert_eq!(plan.texture.mip_levels, 1);
    assert_eq!(plan.texture.sample_count, 1);
    assert_eq!(plan.texture.heap, HeapType::DefaultHeap);
    assert_eq!(plan.texture.initial_state, ResourceState::CopyDest);
    assert_eq!(plan.upload_buffer.byte_size, 512);
    assert_eq!(plan.upload_buffer.heap, HeapType::UploadHeap);
    assert_eq!(plan.upload_buffer.initial_state, ResourceState::GenericRead);
    assert_eq!(plan.footprint.row_pitch, 256);
    assert_eq!(plan.footprint.depth, 1);
    assert_eq!(plan.barrier.state_before, ResourceState::CopyDest);
    assert_eq!(plan.barrier.state_after, ResourceState::PixelShaderResource);
    assert_eq!(plan.srv.mip_levels, 1);
}
