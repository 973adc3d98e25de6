//! The one render pipeline of the program: every choice in it is fixed,
//! except the format of the colour target, which is that of the surface.

use crate::geometry::{Vertex, VertexBufferLayout};
use vstd::prelude::*;

verus! {

/// How vertices are assembled into primitives.
#[derive(Clone, Copy, Debug, PartialEq, Eq, Structural)]
pub enum PrimitiveTopology {
    PointList,
    LineList,
    LineStrip,
    TriangleList,
    TriangleStrip,
}

/// Width of the indices of a strip.
#[derive(Clone, Copy, Debug, PartialEq, Eq, Structural)]
pub enum IndexFormat {
    Uint16,
    Uint32,
}

/// The winding order that makes a triangle face the viewer.
#[derive(Clone, Copy, Debug, PartialEq, Eq, Structural)]
pub enum FrontFace {
    /// Counter-clockwise.
    Ccw,
    /// Clockwise.
    Cw,
}

/// A side of a triangle.
#[derive(Clone, Copy, Debug, PartialEq, Eq, Structural)]
pub enum Face {
    Front,
    Back,
}

/// How the inside of a polygon is rasterized.
#[derive(Clone, Copy, Debug, PartialEq, Eq, Structural)]
pub enum PolygonMode {
    Fill,
    Line,
    Point,
}

/// Primitive assembly and rasterization.
#[derive(Clone, Copy, Debug, PartialEq, Eq, Structural)]
pub struct PrimitiveState {
    pub topology: PrimitiveTopology,
    pub strip_index_format: Option<IndexFormat>,
    pub front_face: FrontFace,
    /// The side of a triangle that is thrown away, if any.
    pub cull_mode: Option<Face>,
    pub unclipped_depth: bool,
    pub polygon_mode: PolygonMode,
    pub conservative: bool,
}

/// Multisampling.
#[derive(Clone, Copy, Debug, PartialEq, Eq, Structural)]
pub struct MultisampleState {
    /// Samples per pixel.
    pub count: u32,
    /// One bit per sample: the samples that are written.
    pub mask: u64,
    pub alpha_to_coverage_enabled: bool,
}

/// A multiplier in a blend equation.
#[derive(Clone, Copy, Debug, PartialEq, Eq, Structural)]
pub enum BlendFactor {
    Zero,
    One,
    Src,
    OneMinusSrc,
    SrcAlpha,
    OneMinusSrcAlpha,
    Dst,
    OneMinusDst,
    DstAlpha,
    OneMinusDstAlpha,
    SrcAlphaSaturated,
    Constant,
    OneMinusConstant,
}

/// The operation of a blend equation.
#[derive(Clone, Copy, Debug, PartialEq, Eq, Structural)]
pub enum BlendOperation {
    Add,
    Subtract,
    ReverseSubtract,
    Min,
    Max,
}

/// One blend equation: source times `src_factor`, combined by `operation`
/// with destination times `dst_factor`.
#[derive(Clone, Copy, Debug, PartialEq, Eq, Structural)]
pub struct BlendComponent {
    pub src_factor: BlendFactor,
    pub dst_factor: BlendFactor,
    pub operation: BlendOperation,
}

/// The blend equations of the colour channels and of the alpha channel.
#[derive(Clone, Copy, Debug, PartialEq, Eq, Structural)]
pub struct BlendState {
    pub color: BlendComponent,
    pub alpha: BlendComponent,
}

/// Write-mask bit of the red channel.
pub const WRITE_RED: u32 = 1;

/// Write-mask bit of the green channel.
pub const WRITE_GREEN: u32 = 2;

/// Write-mask bit of the blue channel.
pub const WRITE_BLUE: u32 = 4;

/// Write-mask bit of the alpha channel.
pub const WRITE_ALPHA: u32 = 8;

/// Write mask that lets all four channels through.
pub const WRITE_ALL: u32 = 15;

/// A colour output of the fragment stage.
#[derive(Clone, Copy, Debug, PartialEq, Eq)]
pub struct ColorTargetState {
    pub format: wgpu::TextureFormat,
    pub blend: Option<BlendState>,
    /// The channels that are written: a sum of `WRITE_*` bits.
    pub write_mask: u32,
}

/// Everything that the render pipeline is built from, the compiled shader
/// module apart.
///
/// The pipeline has one vertex buffer and one colour target.
#[derive(Clone, Debug, PartialEq, Eq)]
pub struct RenderPipelineDescriptor {
    /// Name of the vertex stage's entry point in the shader module.
    pub vertex_entry_point: &'static str,
    pub vertex_layout: VertexBufferLayout,
    /// Name of the fragment stage's entry point in the shader module.
    pub fragment_entry_point: &'static str,
    pub color_target: ColorTargetState,
    pub primitive: PrimitiveState,
    /// Whether the pipeline has a depth/stencil attachment.
    pub depth_stencil: bool,
    pub multisample: MultisampleState,
    /// Number of views rendered at once, if more than one.
    pub multiview: Option<u32>,
}

/// The blend equation that replaces the destination by the source.
pub open spec fn replace_component() -> BlendComponent {
    BlendComponent {
        src_factor: BlendFactor::One,
        dst_factor: BlendFactor::Zero,
        operation: BlendOperation::Add,
    }
}

/// Opaque output: colour and alpha both replace what was there.
pub open spec fn replace_blend() -> BlendState {
    BlendState { color: replace_component(), alpha: replace_component() }
}

/// Filled triangles from a list of vertices; a triangle faces the viewer
/// where its vertices run counter-clockwise, and those that face away are
/// thrown away.
pub open spec fn culled_triangle_list() -> PrimitiveState {
    PrimitiveState {
        topology: PrimitiveTopology::TriangleList,
        strip_index_format: None,
        front_face: FrontFace::Ccw,
        cull_mode: Some(Face::Back),
        unclipped_depth: false,
        polygon_mode: PolygonMode::Fill,
        conservative: false,
    }
}

/// One sample per pixel, always written.
pub open spec fn single_sample() -> MultisampleState {
    MultisampleState { count: 1, mask: 0xFFFF_FFFF_FFFF_FFFF, alpha_to_coverage_enabled: false }
}

/// An opaque colour target of the given format, all channels written.
pub open spec fn opaque_target(format: wgpu::TextureFormat) -> ColorTargetState {
    ColorTargetState { format, blend: Some(replace_blend()), write_mask: WRITE_ALL }
}

impl RenderPipelineDescriptor {
    /// The descriptor is the fixed pipeline with a colour target of the given
    /// format: entry points `vs_main` and `fs_main`, the layout of
    /// [`Vertex`], a culled triangle list, no depth/stencil attachment, one
    /// sample per pixel, one view, opaque output.
    pub open spec fn is_fixed_for(&self, format: wgpu::TextureFormat) -> bool {
        &&& self.vertex_entry_point@ == "vs_main"@
        &&& self.vertex_layout.describes_vertex()
        &&& self.vertex_layout.well_formed()
        &&& self.fragment_entry_point@ == "fs_main"@
        &&& self.color_target == opaque_target(format)
        &&& self.primitive == culled_triangle_list()
        &&& !self.depth_stencil
        &&& self.multisample == single_sample()
        &&& self.multiview.is_none()
    }
}

/// Builder of the render pipeline's descriptor.
pub struct PipelineBuilder;

impl PipelineBuilder {
    /// Describes the pipeline that renders to a target of `output_format`.
    pub fn build(output_format: wgpu::TextureFormat) -> (descriptor: RenderPipelineDescriptor)
        ensures
            descriptor.is_fixed_for(output_format),
            descriptor.color_target.format == output_format,
    {
        let replace = BlendComponent {
            src_factor: BlendFactor::One,
            dst_factor: BlendFactor::Zero,
            operation: BlendOperation::Add,
        };
        RenderPipelineDescriptor {
            vertex_entry_point: "vs_main",
            vertex_layout: Vertex::desc(),
            fragment_entry_point: "fs_main",
            color_target: ColorTargetState {
                format: output_format,
                blend: Some(BlendState { color: replace, alpha: replace }),
                write_mask: WRITE_ALL,
            },
            primitive: PrimitiveState {
                topology: PrimitiveTopology::TriangleList,
                strip_index_format: None,
                front_face: FrontFace::Ccw,
                cull_mode: Some(Face::Back),
                unclipped_depth: false,
                polygon_mode: PolygonMode::Fill,
                conservative: false,
            },
            depth_stencil: false,
            multisample: MultisampleState {
                count: 1,
                mask: 0xFFFF_FFFF_FFFF_FFFF,
                alpha_to_coverage_enabled: false,
            },
            multiview: None,
        }
    }
}

} // verus!
