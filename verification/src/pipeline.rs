use vstd::prelude::*;

verus! {

/// What a specialized pipeline depends on.
#[derive(Debug, Clone, Copy, PartialEq, Eq, Structural, Hash)]
pub struct UnifiedPipelineKey {
    pub msaa: u32,
    pub hdr: bool,
}

/// The colour target format of the pipeline.
#[derive(Debug, Clone, Copy, PartialEq, Eq, Structural)]
pub enum TargetFormat {
    /// The view target's HDR format.
    Hdr,
    /// The engine's default swap-chain format.
    Default,
}

/// The formats of the vertex attributes of a UI quad.
#[derive(Debug, Clone, Copy, PartialEq, Eq, Structural)]
pub enum AttributeFormat {
    Float32x3,
    Float32x4,
}

/// Size in bytes of an attribute of the given format.
pub open spec fn format_size(format: AttributeFormat) -> nat {
    match format {
        AttributeFormat::Float32x3 => 12,
        AttributeFormat::Float32x4 => 16,
    }
}

/// How the vertex buffer is advanced.
#[derive(Debug, Clone, Copy, PartialEq, Eq, Structural)]
pub enum StepMode {
    /// One element per vertex.
    Vertex,
    /// One element per instance.
    Instance,
}

/// One attribute of the vertex buffer layout.
#[derive(Debug, Clone, Copy, PartialEq, Eq, Structural)]
pub struct VertexAttributeLayout {
    pub format: AttributeFormat,
    pub offset: u64,
    pub shader_location: u32,
}

/// How the colour target blends a fragment into what is there.
#[derive(Debug, Clone, Copy, PartialEq, Eq, Structural)]
pub enum BlendMode {
    Replace,
    AlphaBlending,
    PremultipliedAlphaBlending,
}

/// Colour write flags for all four channels (red 1, green 2, blue 4,
/// alpha 8).
pub const WRITE_ALL: u32 = 15u32;

/// The bind group layouts of the pipeline.
#[derive(Debug, Clone, Copy, PartialEq, Eq, Structural)]
pub enum LayoutKind {
    /// The view and globals uniforms.
    View,
    /// An image with its sampler and a font atlas with its sampler.
    Image,
    /// The per-type uniform record.
    Types,
}

/// Bind group index of the view layout.
pub const VIEW_GROUP: usize = 0usize;
/// Bind group index of the image layout.
pub const IMAGE_GROUP: usize = 1usize;
/// Bind group index of the types layout.
pub const TYPES_GROUP: usize = 2usize;

#[derive(Debug, Clone, Copy, PartialEq, Eq, Structural)]
pub enum PrimitiveTopology {
    PointList,
    LineList,
    LineStrip,
    TriangleList,
    TriangleStrip,
}

#[derive(Debug, Clone, Copy, PartialEq, Eq, Structural)]
pub enum FrontFace {
    Ccw,
    Cw,
}

#[derive(Debug, Clone, Copy, PartialEq, Eq, Structural)]
pub enum Face {
    Front,
    Back,
}

#[derive(Debug, Clone, Copy, PartialEq, Eq, Structural)]
pub enum PolygonMode {
    Fill,
    Line,
    Point,
}

#[derive(Debug, Clone, Copy, PartialEq, Eq, Structural)]
pub enum IndexFormat {
    Uint16,
    Uint32,
}

/// How vertices are assembled into primitives and rasterized.
#[derive(Debug, Clone, Copy, PartialEq, Eq, Structural)]
pub struct PrimitiveSettings {
    pub topology: PrimitiveTopology,
    pub strip_index_format: Option<IndexFormat>,
    pub front_face: FrontFace,
    pub cull_mode: Option<Face>,
    pub polygon_mode: PolygonMode,
    pub unclipped_depth: bool,
    pub conservative: bool,
}

/// The settings of the UI render pipeline: shader entry points, the vertex
/// layout (position, colour, uv and position/size of each vertex), the
/// colour target, the bind group layouts by group index, the primitive
/// state, depth-stencil and multisampling.
pub struct PipelineSettings {
    pub label: &'static str,
    pub vertex_entry_point: &'static str,
    pub fragment_entry_point: &'static str,
    pub vertex_stride: u64,
    pub vertex_step_mode: StepMode,
    pub attributes: Vec<VertexAttributeLayout>,
    pub target_format: TargetFormat,
    pub blend: Option<BlendMode>,
    pub write_mask: u32,
    pub layouts: Vec<LayoutKind>,
    pub primitive: PrimitiveSettings,
    pub depth_stencil: bool,
    pub push_constant_ranges: usize,
    pub sample_count: u32,
    pub sample_mask: u64,
    pub alpha_to_coverage: bool,
}

/// The bind group layouts, by group index.
pub open spec fn layout_order() -> Seq<LayoutKind> {
    seq![LayoutKind::View, LayoutKind::Image, LayoutKind::Types]
}

/// The group indices the draw commands bind at name the layouts they bind.
pub proof fn lemma_group_indices_match_layouts()
    ensures
        layout_order().len() == 3,
        layout_order()[VIEW_GROUP as int] == LayoutKind::View,
        layout_order()[IMAGE_GROUP as int] == LayoutKind::Image,
        layout_order()[TYPES_GROUP as int] == LayoutKind::Types,
{
}

/// The attributes are laid out one after another from offset 0, shader
/// location `k` for the `k`-th, and the stride is their total size.
pub open spec fn packed_layout(stride: u64, attributes: Seq<VertexAttributeLayout>) -> bool {
    &&& attributes.len() > 0
    &&& attributes[0].offset == 0
    &&& forall|k: int| 0 <= k < attributes.len() ==> #[trigger] attributes[k].shader_location == k
    &&& forall|k: int|
        0 <= k < attributes.len() - 1 ==> #[trigger] attributes[k + 1].offset == attributes[k].offset
            + format_size(attributes[k].format)
    &&& stride == attributes.last().offset + format_size(attributes.last().format)
}

/// The settings of the pipeline specialized for `key`.
pub fn specialize(key: UnifiedPipelineKey) -> (settings: PipelineSettings)
    ensures
        settings.vertex_stride == 60,
        settings.vertex_step_mode == StepMode::Vertex,
        settings.attributes@ == seq![
            VertexAttributeLayout { format: AttributeFormat::Float32x3, offset: 0, shader_location: 0 },
            VertexAttributeLayout { format: AttributeFormat::Float32x4, offset: 12, shader_location: 1 },
            VertexAttributeLayout { format: AttributeFormat::Float32x4, offset: 28, shader_location: 2 },
            VertexAttributeLayout { format: AttributeFormat::Float32x4, offset: 44, shader_location: 3 },
        ],
        packed_layout(settings.vertex_stride, settings.attributes@),
        settings.target_format == (if key.hdr { TargetFormat::Hdr } else { TargetFormat::Default }),
        settings.label@ == "unified_pipeline"@,
        settings.vertex_entry_point@ == "vertex"@,
        settings.fragment_entry_point@ == "fragment"@,
        settings.blend == Some(BlendMode::AlphaBlending),
        settings.write_mask == WRITE_ALL,
        settings.layouts@ == layout_order(),
        settings.primitive == (PrimitiveSettings {
            topology: PrimitiveTopology::TriangleList,
            strip_index_format: None,
            front_face: FrontFace::Ccw,
            cull_mode: None,
            polygon_mode: PolygonMode::Fill,
            unclipped_depth: false,
            conservative: false,
        }),
        !settings.depth_stencil,
        settings.push_constant_ranges == 0,
        settings.sample_count == key.msaa,
        settings.sample_mask == u64::MAX,
        !settings.alpha_to_coverage,
{
    let attributes = vec![
        VertexAttributeLayout { format: AttributeFormat::Float32x3, offset: 0, shader_location: 0 },
        VertexAttributeLayout { format: AttributeFormat::Float32x4, offset: 12, shader_location: 1 },
        VertexAttributeLayout { format: AttributeFormat::Float32x4, offset: 28, shader_location: 2 },
        VertexAttributeLayout { format: AttributeFormat::Float32x4, offset: 44, shader_location: 3 },
    ];
    let settings = PipelineSettings {
        label: "unified_pipeline",
        vertex_entry_point: "vertex",
        fragment_entry_point: "fragment",
        vertex_stride: 60,
        vertex_step_mode: StepMode::Vertex,
        attributes,
        blend: Some(BlendMode::AlphaBlending),
        write_mask: WRITE_ALL,
        layouts: vec![LayoutKind::View, LayoutKind::Image, LayoutKind::Types],
        primitive: PrimitiveSettings {
            topology: PrimitiveTopology::TriangleList,
            strip_index_format: None,
            front_face: FrontFace::Ccw,
            cull_mode: None,
            polygon_mode: PolygonMode::Fill,
            unclipped_depth: false,
            conservative: false,
        },
        depth_stencil: false,
        push_constant_ranges: 0,
        target_format: if key.hdr {
            TargetFormat::Hdr
        } else {
            TargetFormat::Default
        },
        sample_count: key.msaa,
        sample_mask: !0u64,
        alpha_to_coverage: false,
    };
    proof {
        assert(!0u64 == u64::MAX) by (bit_vector);
        let a = settings.attributes@;
        assert(a[1].offset == a[0].offset + format_size(a[0].format));
        assert(a[2].offset == a[1].offset + format_size(a[1].format));
        assert(a[3].offset == a[2].offset + format_size(a[2].format));
    }
    settings
}

} // verus!
