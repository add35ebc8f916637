//! The fixed UI rendering pipeline: triangle list, no culling, alpha
//! blending over an opaque scene, depth-tested against the shared depth
//! buffer, and a four-attribute vertex layout. Constructed once and keyed by
//! a stable handle, so repeated plugin registration reuses it.

use vstd::prelude::*;

verus! {

/// The stable handle the pipeline is registered under, so that repeated
/// registration finds the existing pipeline instead of duplicating it.
pub const UI_PIPELINE_HANDLE: u64 = 0xfb75_1a54_39e0_23e2;

/// Byte stride of one vertex: two position floats, two texture coordinate
/// floats, four color floats and one mode word.
pub const VERTEX_STRIDE: u64 = 36;

/// How a primitive is assembled from the vertex stream.
#[derive(Clone, Copy, Debug, PartialEq, Eq, Structural)]
pub enum PrimitiveTopology {
    PointList,
    LineList,
    TriangleList,
    TriangleStrip,
}

/// Which winding order is considered front-facing.
#[derive(Clone, Copy, Debug, PartialEq, Eq, Structural)]
pub enum FrontFace {
    Ccw,
    Cw,
}

/// Which faces are culled.
#[derive(Clone, Copy, Debug, PartialEq, Eq, Structural)]
pub enum CullMode {
    Off,
    Front,
    Back,
}

/// How polygons are rasterized.
#[derive(Clone, Copy, Debug, PartialEq, Eq, Structural)]
pub enum PolygonMode {
    Fill,
    Line,
    Point,
}

/// The depth comparison deciding whether a fragment passes.
#[derive(Clone, Copy, Debug, PartialEq, Eq, Structural)]
pub enum CompareFunction {
    Never,
    Less,
    LessEqual,
    Always,
}

/// A texture format the pipeline renders to.
#[derive(Clone, Copy, Debug, PartialEq, Eq, Structural)]
pub enum TextureFormat {
    Bgra8UnormSrgb,
    Rgba8UnormSrgb,
    Depth32Float,
}

/// A blend factor.
#[derive(Clone, Copy, Debug, PartialEq, Eq, Structural)]
pub enum BlendFactor {
    Zero,
    One,
    SrcAlpha,
    OneMinusSrcAlpha,
}

/// A blend operation.
#[derive(Clone, Copy, Debug, PartialEq, Eq, Structural)]
pub enum BlendOperation {
    Add,
    Subtract,
    Min,
    Max,
}

/// One blend equation.
#[derive(Clone, Copy, Debug, PartialEq, Eq, Structural)]
pub struct BlendState {
    pub src_factor: BlendFactor,
    pub dst_factor: BlendFactor,
    pub operation: BlendOperation,
}

/// Primitive assembly state of the pipeline.
#[derive(Clone, Copy, Debug, PartialEq, Eq, Structural)]
pub struct PrimitiveState {
    pub topology: PrimitiveTopology,
    pub front_face: FrontFace,
    pub cull_mode: CullMode,
    pub polygon_mode: PolygonMode,
}

/// Depth testing state of the pipeline.
#[derive(Clone, Copy, Debug, PartialEq, Eq, Structural)]
pub struct DepthState {
    pub format: TextureFormat,
    pub depth_write_enabled: bool,
    pub depth_compare: CompareFunction,
}

/// Color target and blending state of the pipeline.
#[derive(Clone, Copy, Debug, PartialEq, Eq, Structural)]
pub struct ColorTargetState {
    pub format: TextureFormat,
    pub color_blend: BlendState,
    pub alpha_blend: BlendState,
}

/// The complete UI pipeline configuration.
#[derive(Clone, Copy, Debug, PartialEq, Eq, Structural)]
pub struct PipelineConfig {
    pub primitive: PrimitiveState,
    pub depth_stencil: DepthState,
    pub color_target: ColorTargetState,
}

/// Builds the one fixed UI pipeline configuration: a triangle list without
/// culling, source-alpha blending for color with additive alpha, rendering
/// to the swap chain format, depth-tested less-or-equal against the shared
/// 32-bit depth buffer with depth writes on.
pub fn build_ui_pipeline() -> (p: PipelineConfig)
    ensures
        p.primitive == (PrimitiveState {
            topology: PrimitiveTopology::TriangleList,
            front_face: FrontFace::Ccw,
            cull_mode: CullMode::Off,
            polygon_mode: PolygonMode::Fill,
        }),
        p.depth_stencil == (DepthState {
            format: TextureFormat::Depth32Float,
            depth_write_enabled: true,
            depth_compare: CompareFunction::LessEqual,
        }),
        p.color_target == (ColorTargetState {
            format: TextureFormat::Bgra8UnormSrgb,
            color_blend: BlendState {
                src_factor: BlendFactor::SrcAlpha,
                dst_factor: BlendFactor::OneMinusSrcAlpha,
                operation: BlendOperation::Add,
            },
            alpha_blend: BlendState {
                src_factor: BlendFactor::One,
                dst_factor: BlendFactor::One,
                operation: BlendOperation::Add,
            },
        }),
{
    PipelineConfig {
        primitive: PrimitiveState {
            topology: PrimitiveTopology::TriangleList,
            front_face: FrontFace::Ccw,
            cull_mode: CullMode::Off,
            polygon_mode: PolygonMode::Fill,
        },
        depth_stencil: DepthState {
            format: TextureFormat::Depth32Float,
            depth_write_enabled: true,
            depth_compare: CompareFunction::LessEqual,
        },
        color_target: ColorTargetState {
            format: TextureFormat::Bgra8UnormSrgb,
            color_blend: BlendState {
                src_factor: BlendFactor::SrcAlpha,
                dst_factor: BlendFactor::OneMinusSrcAlpha,
                operation: BlendOperation::Add,
            },
            alpha_blend: BlendState {
                src_factor: BlendFactor::One,
                dst_factor: BlendFactor::One,
                operation: BlendOperation::Add,
            },
        },
    }
}

/// What one vertex attribute carries.
#[derive(Clone, Copy, Debug, PartialEq, Eq, Structural)]
pub enum VertexSemantic {
    Position,
    Uv,
    Color,
    Mode,
}

/// The data format of one vertex attribute.
#[derive(Clone, Copy, Debug, PartialEq, Eq, Structural)]
pub enum VertexFormat {
    Float2,
    Float4,
    Uint,
}

/// The byte size of one vertex attribute format.
pub open spec fn spec_format_size(f: VertexFormat) -> int {
    match f {
        VertexFormat::Float2 => 8,
        VertexFormat::Float4 => 16,
        VertexFormat::Uint => 4,
    }
}

/// One attribute of the vertex layout.
#[derive(Clone, Copy, Debug, PartialEq, Eq, Structural)]
pub struct VertexAttribute {
    pub semantic: VertexSemantic,
    pub offset: u64,
    pub format: VertexFormat,
    pub shader_location: u32,
}

/// The four-attribute vertex layout: position, texture coordinates, color
/// and render mode, packed without gaps — each attribute starts where the
/// previous one ends, and the last one ends at the vertex stride.
pub fn vertex_layout() -> (attrs: Vec<VertexAttribute>)
    ensures
        attrs@.len() == 4,
        attrs@[0] == (VertexAttribute {
            semantic: VertexSemantic::Position,
            offset: 0,
            format: VertexFormat::Float2,
            shader_location: 0,
        }),
        attrs@[1] == (VertexAttribute {
            semantic: VertexSemantic::Uv,
            offset: 8,
            format: VertexFormat::Float2,
            shader_location: 1,
        }),
        attrs@[2] == (VertexAttribute {
            semantic: VertexSemantic::Color,
            offset: 16,
            format: VertexFormat::Float4,
            shader_location: 2,
        }),
        attrs@[3] == (VertexAttribute {
            semantic: VertexSemantic::Mode,
            offset: 32,
            format: VertexFormat::Uint,
            shader_location: 3,
        }),
        attrs@[0].offset == 0,
        forall|i: int|
            0 < i < attrs@.len() ==> #[trigger] attrs@[i].offset == attrs@[i - 1].offset
                + spec_format_size(attrs@[i - 1].format),
        attrs@[3].offset + spec_format_size(attrs@[3].format) == VERTEX_STRIDE,
        forall|i: int| 0 <= i < attrs@.len() ==> (#[trigger] attrs@[i].shader_location) == i,
{
    let mut attrs: Vec<VertexAttribute> = Vec::new();
    attrs.push(
        VertexAttribute {
            semantic: VertexSemantic::Position,
            offset: 0,
            format: VertexFormat::Float2,
            shader_location: 0,
        },
    );
    attrs.push(
        VertexAttribute {
            semantic: VertexSemantic::Uv,
            offset: 8,
            format: VertexFormat::Float2,
            shader_location: 1,
        },
    );
    attrs.push(
        VertexAttribute {
            semantic: VertexSemantic::Color,
            offset: 16,
            format: VertexFormat::Float4,
            shader_location: 2,
        },
    );
    attrs.push(
        VertexAttribute {
            semantic: VertexSemantic::Mode,
            offset: 32,
            format: VertexFormat::Uint,
            shader_location: 3,
        },
    );
    attrs
}

/// One lazy-initialization step for a shared GPU resource — the compiled
/// pipeline or the per-frame sampler. An occupied slot keeps and returns
/// its cached handle untouched; an empty slot takes the freshly created
/// one. Run with a fresh handle exactly when the slot is empty, the
/// resource is created once and reused by every later frame and entity.
pub fn reuse_or_create(slot: &mut Option<u64>, created: Option<u64>) -> (r: u64)
    requires
        *old(slot) is None ==> created is Some,
    ensures
        *final(slot) == Some(r),
        *old(slot) matches Some(h) ==> r == h && *final(slot) == *old(slot),
        *old(slot) is None ==> created == Some(r),
{
    match *slot {
        Some(h) => h,
        None => {
            match created {
                Some(h) => {
                    *slot = Some(h);
                    h
                },
                None => {
                    proof {
                        assert(false);
                    }
                    0
                },
            }
        },
    }
}

/// The byte size of a vertex buffer holding `count` vertices.
pub fn vertex_buffer_size(count: usize) -> (r: u64)
    requires
        count * VERTEX_STRIDE <= u64::MAX,
    ensures
        r == count * VERTEX_STRIDE,
{
    (count as u64) * VERTEX_STRIDE
}

} // verus!
