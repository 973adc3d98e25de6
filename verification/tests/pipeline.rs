use triangle_renderer::geometry::Vertex;
use triangle_renderer::pipeline::{
    BlendComponent, BlendFactor, BlendOperation, BlendState, ColorTargetState, Face, FrontFace,
    MultisampleState, PipelineBuilder, PolygonMode, PrimitiveState, PrimitiveTopology, WRITE_ALL,
    WRITE_ALPHA, WRITE_BLUE, WRITE_GREEN, WRITE_RED,
};
use wgpu::TextureFormat;

#[test]
fn pipeline_is_the_fixed_one() {
    let descriptor = PipelineBuilder::build(TextureFormat::Bgra8UnormSrgb);
    assert_eq!(descriptor.vertex_entry_point, "vs_main");
    assert_eq!(descriptor.fragment_entry_point, "fs_main");
    assert_eq!(descriptor.vertex_layout, Vertex::desc());
    assert_eq!(
        descriptor.primitive,
        PrimitiveState {
            topology: PrimitiveTopology::TriangleList,
            strip_index_format: None,
            front_face: FrontFace::Ccw,
            cull_mode: Some(Face::Back),
            unclipped_depth: false,
            polygon_mode: PolygonMode::Fill,
            conservative: false,
        }
    );
    assert!(!descriptor.depth_stencil);
    assert_eq!(
        descriptor.multisample,
        MultisampleState { count: 1, mask: !0, alpha_to_coverage_enabled: false }
    );
    assert_eq!(descriptor.multiview, None);
}

#[test]
fn pipeline_output_is_opaque() {
    let descriptor = PipelineBuilder::build(TextureFormat::Rgba8Unorm);
    let replace = BlendComponent {
        src_factor: BlendFactor::One,
        dst_factor: BlendFactor::Zero,
        operation: BlendOperation::Add,
    };
    assert_eq!(
        descriptor.color_target,
        ColorTargetState {
            format: TextureFormat::Rgba8Unorm,
            blend: Some(BlendState { color: replace, alpha: replace }),
            write_mask: WRITE_ALL,
        }
    );
}

#[test]
fn pipeline_target_has_the_format_asked_for() {
    for format in [
        TextureFormat::Bgra8UnormSrgb,
        TextureFormat::Rgba8UnormSrgb,
        TextureFormat::Bgra8Unorm,
        TextureFormat::Rgba16Float,
    ] {
        assert_eq!(PipelineBuilder::build(format).color_target.format, format);
    }
}

#[test]
fn full_write_mask_is_all_four_channels() {
    assert_eq!(WRITE_ALL, WRITE_RED | WRITE_GREEN | WRITE_BLUE | WRITE_ALPHA);
    assert_eq!(WRITE_ALL, wgpu::ColorWrites::ALL.bits());
    assert_eq!(WRITE_RED, wgpu::ColorWrites::RED.bits());
    assert_eq!(WRITE_GREEN, wgpu::ColorWrites::GREEN.bits());
    assert_eq!(WRITE_BLUE, wgpu::ColorWrites::BLUE.bits());
    assert_eq!(WRITE_ALPHA, wgpu::ColorWrites::ALPHA.bits());
}
