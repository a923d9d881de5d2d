//! Pipeline and root-signature description tests.

use imgui_d3d12_renderer::pipeline::{
    pipeline_state_desc, root_signature_desc, AddressMode, AttributeFormat, AttributeSemantic,
    BlendFactor, BlendOperation, CullMode, DescriptorRangeType, FillMode, Filter,
    ShaderVisibility, Topology,
};

#[test]
fn root_signature_binds_constants_table_and_sampler() {
    let desc = root_signature_desc();
    assert_eq!(desc.constants.num_32bit_values, 16);
    assert_eq!(desc.constants.shader_register, 0);
    assert_eq!(desc.constants.visibility, ShaderVisibility::VertexStage);
    assert_eq!(desc.table.num_descriptors, 1);
    assert_eq!(desc.table.range_type, DescriptorRangeType::ShaderResourceView);
    assert_eq!(desc.table.visibility, ShaderVisibility::PixelStage);
    assert_eq!(desc.sampler.filter, Filter::MinMagMipLinear);
    assert_eq!(desc.sampler.address_u, AddressMode::Wrap);
    assert_eq!(desc.sampler.address_v, AddressMode::Wrap);
    assert_eq!(desc.sampler.address_w, AddressMode::Wrap);
    assert_eq!(desc.sampler.visibility, ShaderVisibility::PixelStage);
    assert!(desc.flags.allow_input_assembler_input_layout);
    assert!(desc.flags.deny_hull_shader_root_access);
    assert!(desc.flags.deny_domain_shader_root_access);
    assert!(desc.flags.deny_geometry_shader_root_access);
}

#[test]
fn pipeline_uses_source_over_blending() {
    let desc = pipeline_state_desc(28);
    assert_eq!(desc.rtv_format, 28);
    assert!(desc.blend.blend_enable);
    assert_eq!(desc.blend.src_blend, BlendFactor::SrcAlpha);
    assert_eq!(desc.blend.dest_blend, BlendFactor::InvSrcAlpha);
    assert_eq!(desc.blend.blend_op, BlendOperation::Add);
    assert_eq!(desc.blend.src_blend_alpha, BlendFactor::One);
    assert_eq!(desc.blend.dest_blend_alpha, BlendFactor::InvSrcAlpha);
    assert_eq!(desc.blend.blend_op_alpha, BlendOperation::Add);
    assert!(desc.blend.write_mask_all_channels);
}

#[test]
fn pipeline_disables_depth_stencil_and_culling() {
    let desc = pipeline_state_desc(28);
    assert_eq!(desc.rasterizer.fill_mode, FillMode::Solid);
    assert_eq!(desc.rasterizer.cull_mode, CullMode::CullNothing);
    assert!(desc.rasterizer.depth_clip_enable);
    assert!(!desc.depth_stencil.depth_enable);
    assert!(!desc.depth_stencil.stencil_enable);
    assert_eq!(desc.topology, Topology::TriangleList);
    assert_eq!(desc.num_render_targets, 1);
    assert_eq!(desc.sample_count, 1);
}

#[test]
fn input_layout_matches_the_vertex_record() {
    let desc = pipeline_state_desc(87);
    assert_eq!(desc.element_pos.semantic, AttributeSemantic::Position);
    assert_eq!(desc.element_pos.format, AttributeFormat::Rg32Float);
    assert_eq!(desc.element_pos.byte_offset, 0);
    assert_eq!(desc.element_uv.semantic, AttributeSemantic::TexCoord);
    assert_eq!(desc.element_uv.format, AttributeFormat::Rg32Float);
    assert_eq!(desc.element_uv.byte_offset, 8);
    assert_eq!(desc.element_col.semantic, AttributeSemantic::Color);
    assert_eq!(desc.element_col.format, AttributeFormat::Rgba8Unorm);
    assert_eq!(desc.element_col.byte_offset, 16);
}
