use vstd::prelude::*;

verus! {

/// Bytes between consecutive figure vertices: a position of three 32-bit
/// floats and texture coordinates of two.
pub const FIGURE_VERTEX_STRIDE: u64 = 20;

/// Bytes between consecutive instances: one 4x4 matrix of 32-bit floats.
pub const INSTANCE_STRIDE: u64 = 64;

/// The first shader location of the instance matrix; its four columns take
/// this one and the three after it.
pub const INSTANCE_FIRST_LOCATION: u32 = 5;

/// The format of one vertex attribute.
#[derive(Clone, Copy, Debug, PartialEq, Eq, Structural)]
pub enum VertexFormat {
    Float32x2,
    Float32x3,
    Float32x4,
}

impl VertexFormat {
    pub open spec fn spec_size(self) -> u64 {
        match self {
            VertexFormat::Float32x2 => 8,
            VertexFormat::Float32x3 => 12,
            VertexFormat::Float32x4 => 16,
        }
    }

    /// Bytes one attribute of this format takes.
    pub fn size(self) -> (r: u64)
        ensures
            r == self.spec_size(),
    {
        match self {
            VertexFormat::Float32x2 => 8,
            VertexFormat::Float32x3 => 12,
            VertexFormat::Float32x4 => 16,
        }
    }
}

/// Whether a vertex buffer advances once per vertex or once per instance.
#[derive(Clone, Copy, Debug, PartialEq, Eq, Structural)]
pub enum StepMode {
    Vertex,
    Instance,
}

/// One attribute of a vertex buffer: its format, its byte offset within an
/// element, and the shader location it feeds.
#[derive(Clone, Copy, Debug, PartialEq, Eq, Structural)]
pub struct VertexAttribute {
    pub format: VertexFormat,
    pub offset: u64,
    pub shader_location: u32,
}

/// How the GPU reads one vertex buffer.
pub struct VertexLayout {
    pub array_stride: u64,
    pub step_mode: StepMode,
    pub attributes: Vec<VertexAttribute>,
}

/// The attributes lie inside one element, in order of offset and without
/// overlap.
pub open spec fn attributes_packed(attrs: Seq<VertexAttribute>, stride: u64) -> bool {
    &&& forall|i: int|
        0 <= i < attrs.len() ==> (#[trigger] attrs[i]).offset + attrs[i].format.spec_size()
            <= stride
    &&& forall|i: int|
        #![trigger attrs[i], attrs[i + 1]]
        0 <= i < attrs.len() - 1 ==> attrs[i].offset + attrs[i].format.spec_size() <= attrs[i
            + 1].offset
}

/// Position at location 0, texture coordinates at location 1.
pub open spec fn figure_attributes() -> Seq<VertexAttribute> {
    seq![
        VertexAttribute { format: VertexFormat::Float32x3, offset: 0, shader_location: 0 },
        VertexAttribute { format: VertexFormat::Float32x2, offset: 12, shader_location: 1 },
    ]
}

/// The four columns of the instance matrix, one per consecutive location.
pub open spec fn instance_attributes() -> Seq<VertexAttribute> {
    Seq::new(
        4,
        |i: int|
            VertexAttribute {
                format: VertexFormat::Float32x4,
                offset: (16 * i) as u64,
                shader_location: (INSTANCE_FIRST_LOCATION + i) as u32,
            },
    )
}

pub open spec fn is_figure_layout(l: &VertexLayout) -> bool {
    &&& l.array_stride == FIGURE_VERTEX_STRIDE
    &&& l.step_mode == StepMode::Vertex
    &&& l.attributes@ == figure_attributes()
}

pub open spec fn is_instance_layout(l: &VertexLayout) -> bool {
    &&& l.array_stride == INSTANCE_STRIDE
    &&& l.step_mode == StepMode::Instance
    &&& l.attributes@ == instance_attributes()
}

/// The layout of figure vertices, read once per vertex.
pub fn figure_vertex_layout() -> (r: VertexLayout)
    ensures
        is_figure_layout(&r),
        attributes_packed(r.attributes@, r.array_stride),
{
    let mut attributes: Vec<VertexAttribute> = Vec::new();
    attributes.push(VertexAttribute { format: VertexFormat::Float32x3, offset: 0, shader_location: 0 });
    attributes.push(VertexAttribute { format: VertexFormat::Float32x2, offset: 12, shader_location: 1 });
    assert(attributes@ =~= figure_attributes());
    VertexLayout { array_stride: FIGURE_VERTEX_STRIDE, step_mode: StepMode::Vertex, attributes }
}

/// The layout of instances, read once per instance: a 4x4 matrix takes four
/// consecutive attribute slots, one column each.
pub fn instance_layout() -> (r: VertexLayout)
    ensures
        is_instance_layout(&r),
        attributes_packed(r.attributes@, r.array_stride),
{
    let mut attributes: Vec<VertexAttribute> = Vec::new();
    let mut k: u32 = 0;
    while k < 4
        invariant
            k <= 4,
            attributes@ == instance_attributes().subrange(0, k as int),
        decreases 4 - k,
    {
        attributes.push(
            VertexAttribute {
                format: VertexFormat::Float32x4,
                offset: 16 * k as u64,
                shader_location: INSTANCE_FIRST_LOCATION + k,
            },
        );
        k = k + 1;
        assert(attributes@ =~= instance_attributes().subrange(0, k as int));
    }
    assert(attributes@ =~= instance_attributes());
    VertexLayout { array_stride: INSTANCE_STRIDE, step_mode: StepMode::Instance, attributes }
}

/// A shader stage that can see a binding.
#[derive(Clone, Copy, Debug, PartialEq, Eq, Structural)]
pub enum ShaderStage {
    Vertex,
    Fragment,
}

/// What a binding holds.
#[derive(Clone, Copy, Debug, PartialEq, Eq, Structural)]
pub enum BindingKind {
    /// A 2-D, single-sampled texture of filterable floats.
    FilterableTexture2d,
    /// A sampler that filters.
    FilteringSampler,
    /// A uniform buffer without dynamic offset.
    UniformBuffer,
}

/// One entry of a bind-group layout.
#[derive(Clone, Copy, Debug, PartialEq, Eq, Structural)]
pub struct BindingEntry {
    pub binding: u32,
    pub visibility: ShaderStage,
    pub kind: BindingKind,
}

pub open spec fn material_entries() -> Seq<BindingEntry> {
    seq![
        BindingEntry { binding: 0, visibility: ShaderStage::Fragment, kind: BindingKind::FilterableTexture2d },
        BindingEntry { binding: 1, visibility: ShaderStage::Fragment, kind: BindingKind::FilteringSampler },
    ]
}

pub open spec fn camera_entries() -> Seq<BindingEntry> {
    seq![BindingEntry { binding: 0, visibility: ShaderStage::Vertex, kind: BindingKind::UniformBuffer }]
}

/// The material layout: the texture at binding 0 and its sampler at
/// binding 1, both for the fragment stage.
pub fn material_layout() -> (r: Vec<BindingEntry>)
    ensures
        r@ == material_entries(),
{
    let mut r: Vec<BindingEntry> = Vec::new();
    r.push(BindingEntry { binding: 0, visibility: ShaderStage::Fragment, kind: BindingKind::FilterableTexture2d });
    r.push(BindingEntry { binding: 1, visibility: ShaderStage::Fragment, kind: BindingKind::FilteringSampler });
    assert(r@ =~= material_entries());
    r
}

/// The camera layout: the camera's uniform buffer at binding 0, for the
/// vertex stage.
pub fn camera_layout() -> (r: Vec<BindingEntry>)
    ensures
        r@ == camera_entries(),
{
    let mut r: Vec<BindingEntry> = Vec::new();
    r.push(BindingEntry { binding: 0, visibility: ShaderStage::Vertex, kind: BindingKind::UniformBuffer });
    assert(r@ =~= camera_entries());
    r
}

/// The pipelines a renderer can draw with. They differ only in shader and
/// vertex buffers: `Instanced` reads a second, per-instance buffer.
#[derive(Clone, Copy, Debug, PartialEq, Eq, Structural)]
pub enum PipelineVariant {
    Basic,
    Instanced,
}

#[derive(Clone, Copy, Debug, PartialEq, Eq, Structural)]
pub enum PrimitiveTopology {
    TriangleList,
    TriangleStrip,
}

#[derive(Clone, Copy, Debug, PartialEq, Eq, Structural)]
pub enum FrontFace {
    Ccw,
    Cw,
}

#[derive(Clone, Copy, Debug, PartialEq, Eq, Structural)]
pub enum Face {
    Front,
    Back,
}

#[derive(Clone, Copy, Debug, PartialEq, Eq, Structural)]
pub enum PolygonMode {
    Fill,
    Line,
}

#[derive(Clone, Copy, Debug, PartialEq, Eq, Structural)]
pub enum CompareFunction {
    Less,
    LessEqual,
    Always,
}

/// How a fragment's color is combined with what the target holds.
#[derive(Clone, Copy, Debug, PartialEq, Eq, Structural)]
pub enum BlendMode {
    Replace,
    AlphaBlending,
}

/// The depth test of a pipeline, against a 32-bit float depth target.
#[derive(Clone, Copy, Debug, PartialEq, Eq, Structural)]
pub struct DepthState {
    pub write_enabled: bool,
    pub compare: CompareFunction,
}

/// Everything that fixes a render pipeline but the shader module and the
/// color target's format, which come from the renderer's surface.
pub struct PipelineDesc {
    pub variant: PipelineVariant,
    pub vertex_layouts: Vec<VertexLayout>,
    /// Bind group 0 is the material, bind group 1 the camera.
    pub bind_group_layouts: Vec<Vec<BindingEntry>>,
    pub topology: PrimitiveTopology,
    pub front_face: FrontFace,
    pub cull_mode: Option<Face>,
    pub polygon_mode: PolygonMode,
    pub depth: Option<DepthState>,
    pub sample_count: u32,
    pub sample_mask: u64,
    pub alpha_to_coverage: bool,
    pub blend: BlendMode,
}

/// The vertex buffers that `variant` reads are as described: figure vertices
/// in slot 0 and, for `Instanced`, instances in slot 1.
pub open spec fn layouts_of(variant: PipelineVariant, layouts: Seq<VertexLayout>) -> bool {
    &&& is_figure_layout(&layouts[0])
    &&& match variant {
        PipelineVariant::Basic => layouts.len() == 1,
        PipelineVariant::Instanced => layouts.len() == 2 && is_instance_layout(&layouts[1]),
    }
}

/// The vertex buffer layouts that `variant` reads, slot by slot.
pub fn vertex_layouts_for(variant: PipelineVariant) -> (r: Vec<VertexLayout>)
    ensures
        layouts_of(variant, r@),
{
    let mut layouts: Vec<VertexLayout> = Vec::new();
    layouts.push(figure_vertex_layout());
    match variant {
        PipelineVariant::Basic => {},
        PipelineVariant::Instanced => {
            layouts.push(instance_layout());
        },
    }
    layouts
}

/// The bind-group layouts of the figure pipelines: the material as group 0,
/// the camera as group 1.
fn figure_bind_group_layouts() -> (r: Vec<Vec<BindingEntry>>)
    ensures
        r@.len() == 2,
        r@[0]@ == material_entries(),
        r@[1]@ == camera_entries(),
{
    let mut r: Vec<Vec<BindingEntry>> = Vec::new();
    r.push(material_layout());
    r.push(camera_layout());
    r
}

impl PipelineDesc {
    /// The pipeline of `variant`: triangle lists, counter-clockwise front
    /// faces with back faces culled, filled polygons, a depth test that
    /// passes nearer fragments and writes their depth, one sample per pixel,
    /// and the color written as it comes.
    pub fn new(variant: PipelineVariant) -> (r: Self)
        ensures
            r.variant == variant,
            layouts_of(variant, r.vertex_layouts@),
            r.bind_group_layouts@.len() == 2,
            r.bind_group_layouts@[0]@ == material_entries(),
            r.bind_group_layouts@[1]@ == camera_entries(),
            r.topology == PrimitiveTopology::TriangleList,
            r.front_face == FrontFace::Ccw,
            r.cull_mode == Some(Face::Back),
            r.polygon_mode == PolygonMode::Fill,
            r.depth == Some(DepthState { write_enabled: true, compare: CompareFunction::Less }),
            r.sample_count == 1,
            r.sample_mask == u64::MAX,
            !r.alpha_to_coverage,
            r.blend == BlendMode::Replace,
    {
        let vertex_layouts = vertex_layouts_for(variant);
        let bind_group_layouts = figure_bind_group_layouts();
        PipelineDesc {
            variant,
            vertex_layouts,
            bind_group_layouts,
            topology: PrimitiveTopology::TriangleList,
            front_face: FrontFace::Ccw,
            cull_mode: Some(Face::Back),
            polygon_mode: PolygonMode::Fill,
            depth: Some(DepthState { write_enabled: true, compare: CompareFunction::Less }),
            sample_count: 1,
            sample_mask: u64::MAX,
            alpha_to_coverage: false,
            blend: BlendMode::Replace,
        }
    }
}

/// Across the vertex buffers of either pipeline no two attributes share a
/// shader location: the instance matrix starts past the vertex attributes.
pub proof fn lemma_locations_distinct(variant: PipelineVariant, layouts: Seq<VertexLayout>)
    requires
        layouts_of(variant, layouts),
    ensures
        forall|i: int, j: int, a: int, b: int|
            0 <= i < layouts.len() && 0 <= j < layouts.len() && 0 <= a < layouts[i].attributes@.len()
                && 0 <= b < layouts[j].attributes@.len() && (i != j || a != b) ==> (
            #[trigger] layouts[i].attributes@[a]).shader_location != (
            #[trigger] layouts[j].attributes@[b]).shader_location,
{
}

} // verus!
