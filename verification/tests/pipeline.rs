use frameloop::geometry::{vertex_layout, VertexAttribute, VertexFormat, VertexLayout};
use frameloop::pipeline::{
    build_pipeline, layout_accepted, BlendMode, BuildError, CompileOutcome, PrimitiveTopology,
};
use frameloop::surface::PixelFormat;

#[test]
fn vertex_layout_is_position_then_color() {
    let layout = vertex_layout();
    assert_eq!(layout.stride, 32);
    assert_eq!(layout.attributes.len(), 2);
    assert_eq!(
        layout.attributes[0],
        VertexAttribute { offset: 0, shader_location: 0, format: VertexFormat::Float4 }
    );
    assert_eq!(
        layout.attributes[1],
        VertexAttribute { offset: 16, shader_location: 1, format: VertexFormat::Float4 }
    );
    assert!(layout_accepted(&layout));
}

#[test]
fn vertex_format_sizes() {
    assert_eq!(VertexFormat::Float2.byte_size(), 8);
    assert_eq!(VertexFormat::Float3.byte_size(), 12);
    assert_eq!(VertexFormat::Float4.byte_size(), 16);
}

#[test]
fn build_succeeds_when_both_shaders_compile() {
    let plan = build_pipeline(
        CompileOutcome::Compiled,
        CompileOutcome::Compiled,
        vertex_layout(),
        PixelFormat::Bgra8UnormSrgb,
    )
    .expect("a healthy build must succeed");
    // The plan's color format always matches the requested surface format.
    assert_eq!(plan.target_format, PixelFormat::Bgra8UnormSrgb);
    assert_eq!(plan.topology, PrimitiveTopology::TriangleList);
    assert_eq!(plan.blend, BlendMode::Replace);
    assert_eq!(plan.sample_count, 1);
    assert_eq!(plan.layout.stride, 32);
    assert_eq!(plan.layout.attributes.len(), 2);
}

#[test]
fn vertex_shader_failure_carries_its_diagnostics() {
    let r = build_pipeline(
        CompileOutcome::Failed(String::from("unknown identifier")),
        CompileOutcome::Compiled,
        vertex_layout(),
        PixelFormat::Bgra8UnormSrgb,
    );
    assert_eq!(
        r,
        Err(BuildError::ShaderCompilationFailed(String::from("unknown identifier")))
    );
}

#[test]
fn fragment_shader_failure_carries_its_diagnostics() {
    let r = build_pipeline(
        CompileOutcome::Compiled,
        CompileOutcome::Failed(String::from("type mismatch")),
        vertex_layout(),
        PixelFormat::Bgra8Unorm,
    );
    assert_eq!(
        r,
        Err(BuildError::ShaderCompilationFailed(String::from("type mismatch")))
    );
}

#[test]
fn vertex_shader_diagnostics_win_when_both_fail() {
    let r = build_pipeline(
        CompileOutcome::Failed(String::from("first")),
        CompileOutcome::Failed(String::from("second")),
        vertex_layout(),
        PixelFormat::Bgra8UnormSrgb,
    );
    assert_eq!(r, Err(BuildError::ShaderCompilationFailed(String::from("first"))));
}

#[test]
fn zero_stride_layout_is_rejected() {
    let layout = VertexLayout { stride: 0, attributes: vec![] };
    assert!(!layout_accepted(&layout));
    let r = build_pipeline(
        CompileOutcome::Compiled,
        CompileOutcome::Compiled,
        layout,
        PixelFormat::Bgra8UnormSrgb,
    );
    assert_eq!(r, Err(BuildError::PipelineRejected));
}

#[test]
fn attribute_past_the_stride_is_rejected() {
    let layout = VertexLayout {
        stride: 16,
        attributes: vec![
            VertexAttribute { offset: 0, shader_location: 0, format: VertexFormat::Float4 },
            VertexAttribute { offset: 16, shader_location: 1, format: VertexFormat::Float4 },
        ],
    };
    assert!(!layout_accepted(&layout));
}

#[test]
fn overlapping_attributes_are_rejected() {
    let layout = VertexLayout {
        stride: 32,
        attributes: vec![
            VertexAttribute { offset: 0, shader_location: 0, format: VertexFormat::Float4 },
            VertexAttribute { offset: 8, shader_location: 1, format: VertexFormat::Float4 },
        ],
    };
    assert!(!layout_accepted(&layout));
}

#[test]
fn duplicate_shader_locations_are_rejected() {
    let layout = VertexLayout {
        stride: 32,
        attributes: vec![
            VertexAttribute { offset: 0, shader_location: 0, format: VertexFormat::Float4 },
            VertexAttribute { offset: 16, shader_location: 0, format: VertexFormat::Float4 },
        ],
    };
    assert!(!layout_accepted(&layout));
    let r = build_pipeline(
        CompileOutcome::Compiled,
        CompileOutcome::Compiled,
        layout,
        PixelFormat::Bgra8UnormSrgb,
    );
    assert_eq!(r, Err(BuildError::PipelineRejected));
}

#[test]
fn offset_overflow_is_rejected() {
    let layout = VertexLayout {
        stride: u64::MAX,
        attributes: vec![VertexAttribute {
            offset: u64::MAX - 4,
            shader_location: 0,
            format: VertexFormat::Float4,
        }],
    };
    assert!(!layout_accepted(&layout));
}

#[test]
fn out_of_memory_error_exists_for_the_upload_path() {
    // The one failure of the geometry upload is running out of device
    // memory; it is its own fatal error, distinct from a refused pipeline.
    assert_ne!(BuildError::OutOfDeviceMemory, BuildError::PipelineRejected);
}
