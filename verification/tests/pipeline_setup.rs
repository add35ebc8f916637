use widget_bridge::pipeline::{
    build_ui_pipeline, reuse_or_create, vertex_buffer_size, vertex_layout, BlendFactor,
    BlendOperation,
    CompareFunction, CullMode, FrontFace, PolygonMode, PrimitiveTopology, TextureFormat,
    VertexFormat, VertexSemantic, VERTEX_STRIDE,
};
use widget_bridge::style::{DisabledLoader, LoaderError, Stylesheet, StylesheetLoader};

#[test]
fn pipeline_uses_triangle_list_without_culling() {
    let p = build_ui_pipeline();
    assert_eq!(p.primitive.topology, PrimitiveTopology::TriangleList);
    assert_eq!(p.primitive.front_face, FrontFace::Ccw);
    assert_eq!(p.primitive.cull_mode, CullMode::Off);
    assert_eq!(p.primitive.polygon_mode, PolygonMode::Fill);
}

#[test]
fn pipeline_blends_alpha_over_the_scene() {
    let p = build_ui_pipeline();
    assert_eq!(p.color_target.format, TextureFormat::Bgra8UnormSrgb);
    assert_eq!(p.color_target.color_blend.src_factor, BlendFactor::SrcAlpha);
    assert_eq!(p.color_target.color_blend.dst_factor, BlendFactor::OneMinusSrcAlpha);
    assert_eq!(p.color_target.color_blend.operation, BlendOperation::Add);
    // the alpha channel accumulates additively
    assert_eq!(p.color_target.alpha_blend.src_factor, BlendFactor::One);
    assert_eq!(p.color_target.alpha_blend.dst_factor, BlendFactor::One);
    assert_eq!(p.color_target.alpha_blend.operation, BlendOperation::Add);
}

#[test]
fn pipeline_depth_tests_against_the_shared_buffer() {
    let p = build_ui_pipeline();
    assert_eq!(p.depth_stencil.format, TextureFormat::Depth32Float);
    assert!(p.depth_stencil.depth_write_enabled);
    assert_eq!(p.depth_stencil.depth_compare, CompareFunction::LessEqual);
}

#[test]
fn vertex_layout_packs_four_attributes_without_gaps() {
    let attrs = vertex_layout();
    assert_eq!(attrs.len(), 4);
    assert_eq!(attrs[0].semantic, VertexSemantic::Position);
    assert_eq!((attrs[0].offset, attrs[0].format), (0, VertexFormat::Float2));
    assert_eq!(attrs[1].semantic, VertexSemantic::Uv);
    assert_eq!((attrs[1].offset, attrs[1].format), (8, VertexFormat::Float2));
    assert_eq!(attrs[2].semantic, VertexSemantic::Color);
    assert_eq!((attrs[2].offset, attrs[2].format), (16, VertexFormat::Float4));
    assert_eq!(attrs[3].semantic, VertexSemantic::Mode);
    assert_eq!((attrs[3].offset, attrs[3].format), (32, VertexFormat::Uint));
    assert_eq!(VERTEX_STRIDE, 36);
    for (i, a) in attrs.iter().enumerate() {
        assert_eq!(a.shader_location as usize, i);
    }
}

#[test]
fn vertex_buffers_are_sized_by_count_and_stride() {
    assert_eq!(vertex_buffer_size(0), 0);
    assert_eq!(vertex_buffer_size(1), 36);
    assert_eq!(vertex_buffer_size(1000), 36_000);
}

#[test]
fn shared_resources_are_created_once_and_reused() {
    let mut slot: Option<u64> = None;
    // the first frame creates the resource and fills the cache
    assert_eq!(reuse_or_create(&mut slot, Some(7)), 7);
    assert_eq!(slot, Some(7));
    // later frames reuse the cached handle without creating another
    assert_eq!(reuse_or_create(&mut slot, None), 7);
    assert_eq!(reuse_or_create(&mut slot, Some(9)), 7);
    assert_eq!(slot, Some(7));
}

#[test]
fn stylesheet_loader_declares_its_extension() {
    let loader = StylesheetLoader::default();
    assert_eq!(loader.extensions(), "pwss");
}

#[test]
fn stylesheets_wrap_a_host_asset_identifier() {
    let sheet = Stylesheet::new(12);
    assert_eq!(sheet.style_id(), 12);
}

#[test]
fn in_session_loading_is_a_hard_failure() {
    let loader = DisabledLoader;
    assert_eq!(loader.load("style.pwss"), Err(LoaderError::Disabled));
    assert_eq!(loader.wait("style.pwss"), Err(LoaderError::Disabled));
}
