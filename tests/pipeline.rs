use block_renderer::pipeline::{
    camera_layout, figure_vertex_layout, instance_layout, material_layout, vertex_layouts_for,
    BindingEntry, BindingKind, BlendMode, CompareFunction, DepthState, Face, FrontFace,
    PipelineDesc, PipelineVariant, PolygonMode, PrimitiveTopology, ShaderStage, StepMode,
    VertexAttribute, VertexFormat,
};

#[test]
fn format_sizes() {
    assert_eq!(VertexFormat::Float32x2.size(), 8);
    assert_eq!(VertexFormat::Float32x3.size(), 12);
    assert_eq!(VertexFormat::Float32x4.size(), 16);
}

#[test]
fn figure_vertex_layout_is_position_then_tex_coords() {
    let layout = figure_vertex_layout();
    assert_eq!(layout.array_stride, 20);
    assert_eq!(layout.array_stride as usize, std::mem::size_of::<[f32; 5]>());
    assert_eq!(layout.step_mode, StepMode::Vertex);
    assert_eq!(
        layout.attributes,
        vec![
            VertexAttribute { format: VertexFormat::Float32x3, offset: 0, shader_location: 0 },
            VertexAttribute { format: VertexFormat::Float32x2, offset: 12, shader_location: 1 },
        ]
    );
}

#[test]
fn instance_layout_takes_four_consecutive_slots() {
    let layout = instance_layout();
    assert_eq!(layout.array_stride, 64);
    assert_eq!(layout.array_stride as usize, std::mem::size_of::<[[f32; 4]; 4]>());
    assert_eq!(layout.step_mode, StepMode::Instance);
    assert_eq!(layout.attributes.len(), 4);
    for (i, attr) in layout.attributes.iter().enumerate() {
        assert_eq!(attr.format, VertexFormat::Float32x4);
        assert_eq!(attr.offset, 16 * i as u64);
        assert_eq!(attr.shader_location, 5 + i as u32);
    }
}

#[test]
fn bind_group_layouts() {
    assert_eq!(
        material_layout(),
        vec![
            BindingEntry {
                binding: 0,
                visibility: ShaderStage::Fragment,
                kind: BindingKind::FilterableTexture2d
            },
            BindingEntry {
                binding: 1,
                visibility: ShaderStage::Fragment,
                kind: BindingKind::FilteringSampler
            },
        ]
    );
    assert_eq!(
        camera_layout(),
        vec![BindingEntry {
            binding: 0,
            visibility: ShaderStage::Vertex,
            kind: BindingKind::UniformBuffer
        }]
    );
}

#[test]
fn variants_differ_only_in_vertex_buffers() {
    let basic = PipelineDesc::new(PipelineVariant::Basic);
    let instanced = PipelineDesc::new(PipelineVariant::Instanced);
    assert_eq!(basic.variant, PipelineVariant::Basic);
    assert_eq!(instanced.variant, PipelineVariant::Instanced);
    assert_eq!(basic.vertex_layouts.len(), 1);
    assert_eq!(instanced.vertex_layouts.len(), 2);
    assert_eq!(instanced.vertex_layouts[1].step_mode, StepMode::Instance);
    assert_eq!(basic.vertex_layouts[0].attributes, instanced.vertex_layouts[0].attributes);
    assert_eq!(vertex_layouts_for(PipelineVariant::Instanced).len(), 2);
    for desc in [&basic, &instanced] {
        assert_eq!(desc.bind_group_layouts, vec![material_layout(), camera_layout()]);
        assert_eq!(desc.topology, PrimitiveTopology::TriangleList);
        assert_eq!(desc.front_face, FrontFace::Ccw);
        assert_eq!(desc.cull_mode, Some(Face::Back));
        assert_eq!(desc.polygon_mode, PolygonMode::Fill);
        assert_eq!(
            desc.depth,
            Some(DepthState { write_enabled: true, compare: CompareFunction::Less })
        );
        assert_eq!(desc.sample_count, 1);
        assert_eq!(desc.sample_mask, !0u64);
        assert!(!desc.alpha_to_coverage);
        assert_eq!(desc.blend, BlendMode::Replace);
    }
}
