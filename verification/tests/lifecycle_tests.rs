//! Device-object lifecycle tests against a real UI-library context.

use imgui_d3d12_renderer::renderer::{
    DeviceObjectsOutcome, Renderer, FONT_TEXTURE_ID_UNSET,
};

const RTV_FORMAT: i32 = 28;
const FONT_SRV_CPU: u64 = 0xA00;
const FONT_SRV_GPU: u64 = 0xB00;

fn ui_context() -> imgui::Context {
    let mut context = imgui::Context::create();
    context.set_ini_filename(None);
    context
}

#[test]
fn new_frame_builds_once_and_is_idempotent() {
    let mut context = ui_context();
    let mut renderer = Renderer::new(&mut context, 3, RTV_FORMAT, FONT_SRV_CPU, FONT_SRV_GPU);
    assert!(!renderer.device_objects_built());
    assert_eq!(renderer.published_font_texture_id, FONT_TEXTURE_ID_UNSET);

    let first = renderer.new_frame(&mut context);
    let plan = match first {
        DeviceObjectsOutcome::Prepared(plan) => plan,
        _ => panic!("the first new_frame must build the device objects"),
    };
    assert!(renderer.device_objects.is_some());
    assert_eq!(renderer.published_font_texture_id, FONT_SRV_GPU);
    assert_eq!(plan.font_texture_id, FONT_SRV_GPU);
    assert_eq!(
        context.fonts().tex_id,
        imgui::TextureId::new(FONT_SRV_GPU as usize)
    );

    // The real atlas is non-empty, and its padded upload is consistent.
    let atlas_width = plan.font_texture.texture.width as usize;
    let atlas_height = plan.font_texture.texture.height as usize;
    assert!(atlas_width > 0 && atlas_height > 0);
    assert_eq!(plan.font_upload.pitch % 256, 0);
    assert!(plan.font_upload.pitch >= atlas_width * 4);
    assert_eq!(plan.font_upload.bytes.len(), atlas_height * plan.font_upload.pitch);
    assert_eq!(plan.font_texture.footprint.row_pitch, plan.font_upload.pitch);

    let objects = renderer.device_objects.as_ref().unwrap();
    assert_eq!(objects.frame_resources.len(), 3);

    let frame_index_before = renderer.frame_index;
    let second = renderer.new_frame(&mut context);
    assert!(matches!(second, DeviceObjectsOutcome::AlreadyPrepared));
    assert!(renderer.device_objects.is_some());
    assert_eq!(renderer.frame_index, frame_index_before);
    assert_eq!(renderer.published_font_texture_id, FONT_SRV_GPU);
}

#[test]
fn invalidate_resets_the_published_identifier() {
    let mut context = ui_context();
    let mut renderer = Renderer::new(&mut context, 2, RTV_FORMAT, FONT_SRV_CPU, FONT_SRV_GPU);
    match renderer.new_frame(&mut context) {
        DeviceObjectsOutcome::Prepared(_) => {}
        _ => panic!("the first new_frame must build the device objects"),
    }

    renderer.invalidate_device_objects(&mut context);
    assert!(!renderer.device_objects_built());
    assert_eq!(renderer.published_font_texture_id, FONT_TEXTURE_ID_UNSET);
    assert_eq!(
        context.fonts().tex_id,
        imgui::TextureId::new(FONT_TEXTURE_ID_UNSET as usize)
    );

    // A later new_frame rebuilds from scratch.
    match renderer.new_frame(&mut context) {
        DeviceObjectsOutcome::Prepared(_) => {}
        _ => panic!("new_frame must rebuild after invalidation"),
    }
    assert!(renderer.device_objects.is_some());
    assert_eq!(renderer.published_font_texture_id, FONT_SRV_GPU);
}

#[test]
fn create_device_objects_rebuilds_fresh_slots() {
    let mut context = ui_context();
    let mut renderer = Renderer::new(&mut context, 2, RTV_FORMAT, FONT_SRV_CPU, FONT_SRV_GPU);
    match renderer.create_device_objects(&mut context) {
        DeviceObjectsOutcome::Prepared(_) => {}
        _ => panic!("create_device_objects must build"),
    }
    let objects = renderer.device_objects.as_ref().unwrap();
    assert_eq!(objects.frame_resources.len(), 2);
    for slot in &objects.frame_resources {
        assert!(!slot.vertex_buffer_allocated);
        assert!(!slot.index_buffer_allocated);
        assert_eq!(slot.vbcount, 0);
        assert_eq!(slot.ibcount, 0);
    }
    assert_eq!(objects.font_texture_id, FONT_SRV_GPU);

    // Rebuilding releases the old set and installs a fresh one.
    match renderer.create_device_objects(&mut context) {
        DeviceObjectsOutcome::Prepared(_) => {}
        _ => panic!("create_device_objects must rebuild"),
    }
    assert!(renderer.device_objects.is_some());
}
