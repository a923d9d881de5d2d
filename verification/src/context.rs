//! Bridge to the UI library's context.
//!
//! The UI library supplies the font atlas and receives the renderer's
//! capability flags and the font texture identifier.  Each call crosses
//! into the outside crate through one trusted wrapper; everything the
//! renderer computes from what comes back is verified elsewhere.

use vstd::prelude::*;

verus! {

use crate::font::FontAtlas;

#[verifier::external_type_specification]
#[verifier::external_body]
pub struct ExContext(imgui::Context);

/// Relies on `imgui::Context::set_renderer_name`: records the backend
/// renderer's name in the context's io block.
#[verifier::external_body]
pub(crate) fn set_renderer_name(context: &mut imgui::Context) {
    context.set_renderer_name(Some(String::from("imgui-d3d12-renderer")));
}

/// Relies on `imgui::BackendFlags::insert`, on the io block reached
/// through `imgui::Context::io_mut`: advertises that the renderer
/// honours per-command vertex offsets, so the UI library emits
/// merged-buffer-compatible draw commands.
#[verifier::external_body]
pub(crate) fn enable_vtx_offset_flag(context: &mut imgui::Context) {
    context.io_mut().backend_flags.insert(imgui::BackendFlags::RENDERER_HAS_VTX_OFFSET);
}

/// Relies on the `imgui::FontAtlas::tex_id` field, reached through
/// `imgui::Context::fonts`: publishes the texture identifier the UI
/// library tags font draw commands with.
#[verifier::external_body]
pub(crate) fn publish_font_texture_id(context: &mut imgui::Context, id: u64) {
    context.fonts().tex_id = imgui::TextureId::new(id as usize);
}

/// Relies on `imgui::FontAtlas::build_rgba32_texture`, reached through
/// `imgui::Context::fonts`: builds the RGBA8 font atlas bitmap, four
/// bytes per pixel, rows tightly packed, so the returned data holds
/// `width * height * 4` bytes.
#[verifier::external_body]
pub(crate) fn read_font_atlas(context: &mut imgui::Context) -> (atlas: FontAtlas)
    ensures
        atlas.data@.len() == atlas.width * atlas.height * 4,
{
    let texture = context.fonts().build_rgba32_texture();
    FontAtlas { width: texture.width, height: texture.height, data: texture.data.to_vec() }
}

} // verus!
