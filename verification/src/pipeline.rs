//! Fixed-function pipeline and root-signature descriptions.
//!
//! The renderer's pipeline configuration is fixed: source-over alpha
//! blending, no culling, no depth or stencil use, triangle lists, one
//! render target in the caller's format, and a vertex layout matching the
//! UI library's vertex record byte-for-byte.  The root signature binds 16
//! 32-bit constants (the 4×4 projection) to the vertex stage, one
//! shader-resource descriptor table to the pixel stage, and one static
//! bilinear-wrap sampler.  These functions build the exact descriptions;
//! the host translates them field by field into the graphics API's
//! structures, compiles the fixed shader pair, and creates the objects.

use vstd::prelude::*;

verus! {

use crate::draw_data::VERTEX_STRIDE;

/// Shader stage a binding is visible to.
#[derive(Clone, Copy, PartialEq, Eq, Structural, Debug)]
pub enum ShaderVisibility {
    VertexStage,
    PixelStage,
}

/// Blend factor of the fixed source-over equation.
#[derive(Clone, Copy, PartialEq, Eq, Structural, Debug)]
pub enum BlendFactor {
    One,
    SrcAlpha,
    InvSrcAlpha,
}

/// Blend operator; the renderer only ever adds.
#[derive(Clone, Copy, PartialEq, Eq, Structural, Debug)]
pub enum BlendOperation {
    Add,
}

/// Polygon fill mode; the renderer always fills solid.
#[derive(Clone, Copy, PartialEq, Eq, Structural, Debug)]
pub enum FillMode {
    Solid,
}

/// Face culling; the renderer culls nothing.
#[derive(Clone, Copy, PartialEq, Eq, Structural, Debug)]
pub enum CullMode {
    CullNothing,
}

/// Texture filtering of the static sampler.
#[derive(Clone, Copy, PartialEq, Eq, Structural, Debug)]
pub enum Filter {
    MinMagMipLinear,
}

/// Texture addressing of the static sampler.
#[derive(Clone, Copy, PartialEq, Eq, Structural, Debug)]
pub enum AddressMode {
    Wrap,
}

/// Border color of the static sampler.
#[derive(Clone, Copy, PartialEq, Eq, Structural, Debug)]
pub enum BorderColor {
    TransparentBlack,
}

/// Comparison function; always-pass wherever one is required.
#[derive(Clone, Copy, PartialEq, Eq, Structural, Debug)]
pub enum ComparisonFunc {
    Always,
}

/// Kind of descriptor range bound through the table slot.
#[derive(Clone, Copy, PartialEq, Eq, Structural, Debug)]
pub enum DescriptorRangeType {
    ShaderResourceView,
}

/// Primitive topology; the UI geometry is triangle lists.
#[derive(Clone, Copy, PartialEq, Eq, Structural, Debug)]
pub enum Topology {
    TriangleList,
}

/// Format of one vertex attribute.
#[derive(Clone, Copy, PartialEq, Eq, Structural, Debug)]
pub enum AttributeFormat {
    /// Two 32-bit floats.
    Rg32Float,
    /// Four 8-bit unsigned normalized channels.
    Rgba8Unorm,
}

/// Semantic of one vertex attribute.
#[derive(Clone, Copy, PartialEq, Eq, Structural, Debug)]
pub enum AttributeSemantic {
    Position,
    TexCoord,
    Color,
}

/// The inline-constants root slot.
#[derive(Clone, Copy, PartialEq, Eq, Structural, Debug)]
pub struct RootConstantsSlot {
    pub shader_register: u32,
    pub register_space: u32,
    pub num_32bit_values: u32,
    pub visibility: ShaderVisibility,
}

/// The descriptor-table root slot.
#[derive(Clone, Copy, PartialEq, Eq, Structural, Debug)]
pub struct DescriptorTableSlot {
    pub range_type: DescriptorRangeType,
    pub num_descriptors: u32,
    pub visibility: ShaderVisibility,
}

/// The one static sampler.
#[derive(Clone, Copy, PartialEq, Eq, Structural, Debug)]
pub struct StaticSamplerDesc {
    pub filter: Filter,
    pub address_u: AddressMode,
    pub address_v: AddressMode,
    pub address_w: AddressMode,
    pub max_anisotropy: u32,
    pub comparison: ComparisonFunc,
    pub border_color: BorderColor,
    pub shader_register: u32,
    pub register_space: u32,
    pub visibility: ShaderVisibility,
}

/// Root-signature access flags: allow the input assembler's input layout,
/// deny root access to the stages the renderer never uses.
#[derive(Clone, Copy, PartialEq, Eq, Structural, Debug)]
pub struct RootSignatureFlags {
    pub allow_input_assembler_input_layout: bool,
    pub deny_hull_shader_root_access: bool,
    pub deny_domain_shader_root_access: bool,
    pub deny_geometry_shader_root_access: bool,
}

/// The whole root signature.
#[derive(Clone, Copy, PartialEq, Eq, Structural, Debug)]
pub struct RootSignatureDesc {
    pub constants: RootConstantsSlot,
    pub table: DescriptorTableSlot,
    pub sampler: StaticSamplerDesc,
    pub flags: RootSignatureFlags,
}

/// Blending of the single render target.
#[derive(Clone, Copy, PartialEq, Eq, Structural, Debug)]
pub struct RenderTargetBlendDesc {
    pub blend_enable: bool,
    pub src_blend: BlendFactor,
    pub dest_blend: BlendFactor,
    pub blend_op: BlendOperation,
    pub src_blend_alpha: BlendFactor,
    pub dest_blend_alpha: BlendFactor,
    pub blend_op_alpha: BlendOperation,
    pub write_mask_all_channels: bool,
}

/// Rasterizer configuration.
#[derive(Clone, Copy, PartialEq, Eq, Structural, Debug)]
pub struct RasterizerDesc {
    pub fill_mode: FillMode,
    pub cull_mode: CullMode,
    pub depth_clip_enable: bool,
}

/// Depth/stencil configuration; both tests are off.
#[derive(Clone, Copy, PartialEq, Eq, Structural, Debug)]
pub struct DepthStencilDesc {
    pub depth_enable: bool,
    pub stencil_enable: bool,
}

/// One vertex attribute of the input layout.
#[derive(Clone, Copy, PartialEq, Eq, Structural, Debug)]
pub struct InputElementDesc {
    pub semantic: AttributeSemantic,
    pub format: AttributeFormat,
    pub byte_offset: u32,
}

/// The whole graphics pipeline state.
#[derive(Clone, Copy, PartialEq, Eq, Structural, Debug)]
pub struct PipelineStateDesc {
    /// Render-target color format, as the caller's raw format code.
    pub rtv_format: i32,
    pub blend: RenderTargetBlendDesc,
    pub rasterizer: RasterizerDesc,
    pub depth_stencil: DepthStencilDesc,
    /// 2D position: two 32-bit floats at byte offset 0.
    pub element_pos: InputElementDesc,
    /// 2D texture coordinate: two 32-bit floats at byte offset 8.
    pub element_uv: InputElementDesc,
    /// Packed RGBA color: four bytes at byte offset 16.
    pub element_col: InputElementDesc,
    pub topology: Topology,
    pub num_render_targets: u32,
    pub sample_count: u32,
}

/// The fixed root signature.
pub open spec fn spec_root_signature_desc() -> RootSignatureDesc {
    RootSignatureDesc {
        constants: RootConstantsSlot {
            shader_register: 0,
            register_space: 0,
            num_32bit_values: 16,
            visibility: ShaderVisibility::VertexStage,
        },
        table: DescriptorTableSlot {
            range_type: DescriptorRangeType::ShaderResourceView,
            num_descriptors: 1,
            visibility: ShaderVisibility::PixelStage,
        },
        sampler: StaticSamplerDesc {
            filter: Filter::MinMagMipLinear,
            address_u: AddressMode::Wrap,
            address_v: AddressMode::Wrap,
            address_w: AddressMode::Wrap,
            max_anisotropy: 0,
            comparison: ComparisonFunc::Always,
            border_color: BorderColor::TransparentBlack,
            shader_register: 0,
            register_space: 0,
            visibility: ShaderVisibility::PixelStage,
        },
        flags: RootSignatureFlags {
            allow_input_assembler_input_layout: true,
            deny_hull_shader_root_access: true,
            deny_domain_shader_root_access: true,
            deny_geometry_shader_root_access: true,
        },
    }
}

/// The fixed pipeline state for a given render-target format.
pub open spec fn spec_pipeline_state_desc(rtv_format: i32) -> PipelineStateDesc {
    PipelineStateDesc {
        rtv_format,
        blend: RenderTargetBlendDesc {
            blend_enable: true,
            src_blend: BlendFactor::SrcAlpha,
            dest_blend: BlendFactor::InvSrcAlpha,
            blend_op: BlendOperation::Add,
            src_blend_alpha: BlendFactor::One,
            dest_blend_alpha: BlendFactor::InvSrcAlpha,
            blend_op_alpha: BlendOperation::Add,
            write_mask_all_channels: true,
        },
        rasterizer: RasterizerDesc {
            fill_mode: FillMode::Solid,
            cull_mode: CullMode::CullNothing,
            depth_clip_enable: true,
        },
        depth_stencil: DepthStencilDesc { depth_enable: false, stencil_enable: false },
        element_pos: InputElementDesc {
            semantic: AttributeSemantic::Position,
            format: AttributeFormat::Rg32Float,
            byte_offset: 0,
        },
        element_uv: InputElementDesc {
            semantic: AttributeSemantic::TexCoord,
            format: AttributeFormat::Rg32Float,
            byte_offset: 8,
        },
        element_col: InputElementDesc {
            semantic: AttributeSemantic::Color,
            format: AttributeFormat::Rgba8Unorm,
            byte_offset: 16,
        },
        topology: Topology::TriangleList,
        num_render_targets: 1,
        sample_count: 1,
    }
}

/// Build the fixed root signature.
pub fn root_signature_desc() -> (d: RootSignatureDesc)
    ensures
        d == spec_root_signature_desc(),
{
    RootSignatureDesc {
        constants: RootConstantsSlot {
            shader_register: 0,
            register_space: 0,
            num_32bit_values: 16,
            visibility: ShaderVisibility::VertexStage,
        },
        table: DescriptorTableSlot {
            range_type: DescriptorRangeType::ShaderResourceView,
            num_descriptors: 1,
            visibility: ShaderVisibility::PixelStage,
        },
        sampler: StaticSamplerDesc {
            filter: Filter::MinMagMipLinear,
            address_u: AddressMode::Wrap,
            address_v: AddressMode::Wrap,
            address_w: AddressMode::Wrap,
            max_anisotropy: 0,
            comparison: ComparisonFunc::Always,
            border_color: BorderColor::TransparentBlack,
            shader_register: 0,
            register_space: 0,
            visibility: ShaderVisibility::PixelStage,
        },
        flags: RootSignatureFlags {
            allow_input_assembler_input_layout: true,
            deny_hull_shader_root_access: true,
            deny_domain_shader_root_access: true,
            deny_geometry_shader_root_access: true,
        },
    }
}

/// Build the fixed pipeline state for the caller's render-target format.
pub fn pipeline_state_desc(rtv_format: i32) -> (d: PipelineStateDesc)
    ensures
        d == spec_pipeline_state_desc(rtv_format),
{
    PipelineStateDesc {
        rtv_format,
        blend: RenderTargetBlendDesc {
            blend_enable: true,
            src_blend: BlendFactor::SrcAlpha,
            dest_blend: BlendFactor::InvSrcAlpha,
            blend_op: BlendOperation::Add,
            src_blend_alpha: BlendFactor::One,
            dest_blend_alpha: BlendFactor::InvSrcAlpha,
            blend_op_alpha: BlendOperation::Add,
            write_mask_all_channels: true,
        },
        rasterizer: RasterizerDesc {
            fill_mode: FillMode::Solid,
            cull_mode: CullMode::CullNothing,
            depth_clip_enable: true,
        },
        depth_stencil: DepthStencilDesc { depth_enable: false, stencil_enable: false },
        element_pos: InputElementDesc {
            semantic: AttributeSemantic::Position,
            format: AttributeFormat::Rg32Float,
            byte_offset: 0,
        },
        element_uv: InputElementDesc {
            semantic: AttributeSemantic::TexCoord,
            format: AttributeFormat::Rg32Float,
            byte_offset: 8,
        },
        element_col: InputElementDesc {
            semantic: AttributeSemantic::Color,
            format: AttributeFormat::Rgba8Unorm,
            byte_offset: 16,
        },
        topology: Topology::TriangleList,
        num_render_targets: 1,
        sample_count: 1,
    }
}

/// The three vertex attributes tile the vertex record exactly: position
/// (8 bytes) at offset 0, texture coordinate (8 bytes) at offset 8, color
/// (4 bytes) at offset 16, together filling all `VERTEX_STRIDE` bytes.
pub proof fn lemma_input_layout_matches_vertex_record(rtv_format: i32)
    ensures
        spec_pipeline_state_desc(rtv_format).element_pos.byte_offset + 8
            == spec_pipeline_state_desc(rtv_format).element_uv.byte_offset,
        spec_pipeline_state_desc(rtv_format).element_uv.byte_offset + 8
            == spec_pipeline_state_desc(rtv_format).element_col.byte_offset,
        spec_pipeline_state_desc(rtv_format).element_col.byte_offset + 4 == VERTEX_STRIDE,
{
}

} // verus!
