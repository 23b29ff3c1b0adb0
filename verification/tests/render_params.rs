use kayak_ui::bind_groups::{group_entries, image_layout, BindingKind, EntryResource, ImageGroup, TextureSlot};
use kayak_ui::draw::{DrawUIDraw, ScissorRect, TextureSource};
use kayak_ui::pipeline::{
    specialize, AttributeFormat, BlendMode, FrontFace, LayoutKind, PolygonMode, PrimitiveTopology, StepMode, TargetFormat,
    UnifiedPipelineKey, IMAGE_GROUP, TYPES_GROUP, VIEW_GROUP, WRITE_ALL,
};
use kayak_ui::quad_mesh::{quad_index, quad_vertex_position, uv_corner, UvCorner, QUAD_VERTEX_COUNT};
use kayak_ui::quad_type::{type_records, QuadType, QuadTypeOffsets, UIQuadType};
use kayak_ui::vec_tracker::{VecTracker, VecTrackerProps};

fn offsets() -> QuadTypeOffsets {
    QuadTypeOffsets::from_record_offsets(&vec![0, 256, 512, 768, 1024])
}

#[test]
fn type_index_of_each_type() {
    let o = offsets();
    assert_eq!(UIQuadType::Quad.get_type_index(&o), 0);
    assert_eq!(UIQuadType::TextSubpixel.get_type_index(&o), 256);
    assert_eq!(UIQuadType::Text.get_type_index(&o), 512);
    assert_eq!(UIQuadType::Image.get_type_index(&o), 768);
    assert_eq!(UIQuadType::BoxShadow.get_type_index(&o), 1024);
    assert_eq!(UIQuadType::DrawOpacityLayer.get_type_index(&o), 768);
    assert_eq!(UIQuadType::Clip.get_type_index(&o), 100000);
    assert_eq!(UIQuadType::NoType.get_type_index(&o), 100001);
    assert_eq!(UIQuadType::OpacityLayer.get_type_index(&o), 100002);
}

#[test]
fn type_index_names_own_record() {
    let records = type_records();
    let pushed = vec![16, 32, 48, 64, 80];
    let o = QuadTypeOffsets::from_record_offsets(&pushed);
    for (ty, code) in [
        (UIQuadType::Quad, 0),
        (UIQuadType::TextSubpixel, 1),
        (UIQuadType::Text, 2),
        (UIQuadType::Image, 3),
        (UIQuadType::BoxShadow, 4),
    ] {
        let pos = pushed.iter().position(|p| *p == ty.get_type_index(&o)).unwrap();
        assert_eq!(records[pos].t, code);
    }
    assert_eq!(records.len(), 5);
    assert_eq!(records[2], QuadType::new(2));
    assert_eq!(QuadType::new(4)._padding_3, 0);
}

#[test]
fn default_offsets_are_zero() {
    let o = QuadTypeOffsets::default();
    assert_eq!(UIQuadType::Text.get_type_index(&o), 0);
    assert_eq!(o.box_shadow_type_offset, 0);
}

#[test]
fn specialize_layout_and_key() {
    let s = specialize(UnifiedPipelineKey { msaa: 4, hdr: true });
    assert_eq!(s.vertex_stride, 60);
    assert_eq!(s.vertex_step_mode, StepMode::Vertex);
    let offsets: Vec<u64> = s.attributes.iter().map(|a| a.offset).collect();
    assert_eq!(offsets, vec![0, 12, 28, 44]);
    assert_eq!(s.attributes[0].format, AttributeFormat::Float32x3);
    assert_eq!(s.attributes[3].shader_location, 3);
    assert_eq!(s.target_format, TargetFormat::Hdr);
    assert_eq!(s.sample_count, 4);
    assert_eq!(s.sample_mask, u64::MAX);
    assert!(!s.alpha_to_coverage);
    assert_eq!(s.label, "unified_pipeline");
    assert_eq!(s.vertex_entry_point, "vertex");
    assert_eq!(s.fragment_entry_point, "fragment");
    assert_eq!(s.blend, Some(BlendMode::AlphaBlending));
    assert_eq!(s.write_mask, WRITE_ALL);
    assert_eq!(s.layouts, vec![LayoutKind::View, LayoutKind::Image, LayoutKind::Types]);
    assert_eq!(s.layouts[VIEW_GROUP], LayoutKind::View);
    assert_eq!(s.layouts[IMAGE_GROUP], LayoutKind::Image);
    assert_eq!(s.layouts[TYPES_GROUP], LayoutKind::Types);
    assert_eq!(s.primitive.topology, PrimitiveTopology::TriangleList);
    assert_eq!(s.primitive.front_face, FrontFace::Ccw);
    assert_eq!(s.primitive.cull_mode, None);
    assert_eq!(s.primitive.polygon_mode, PolygonMode::Fill);
    assert!(!s.depth_stencil);
    let d = specialize(UnifiedPipelineKey { msaa: 1, hdr: false });
    assert_eq!(d.target_format, TargetFormat::Default);
    assert_eq!(d.sample_count, 1);
}

#[test]
fn scissor_inside_window() {
    type D = DrawUIDraw<()>;
    assert_eq!(D::scissor_rect(10, 20, 100, 50, 800, 600), Some(ScissorRect { x: 10, y: 20, width: 100, height: 50 }));
    assert_eq!(D::scissor_rect(750, 580, 100, 50, 800, 600), Some(ScissorRect { x: 750, y: 580, width: 50, height: 20 }));
    assert_eq!(D::scissor_rect(0, 0, 2000, 2000, 800, 600), Some(ScissorRect { x: 0, y: 0, width: 800, height: 600 }));
    assert_eq!(D::scissor_rect(800, 0, 10, 10, 800, 600), Some(ScissorRect { x: 800, y: 0, width: 0, height: 10 }));
    assert_eq!(D::scissor_rect(801, 0, 10, 10, 800, 600), None);
    assert_eq!(D::scissor_rect(0, 0, 0, 10, 800, 600), None);
    assert_eq!(D::scissor_rect(0, 0, 10, 10, 800, 0), None);
}

#[test]
fn texture_source_choice() {
    type D = DrawUIDraw<()>;
    assert_eq!(D::texture_source(true, true, true), TextureSource::Image);
    assert_eq!(D::texture_source(true, false, true), TextureSource::Default);
    assert_eq!(D::texture_source(false, false, true), TextureSource::Font);
    assert_eq!(D::texture_source(false, true, false), TextureSource::Default);
}

#[test]
fn quad_mesh_tables() {
    let corners: Vec<usize> = (0..QUAD_VERTEX_COUNT).map(quad_index).collect();
    assert_eq!(corners, vec![0, 2, 3, 0, 1, 2]);
    let positions: Vec<(u8, u8)> = corners.iter().map(|c| quad_vertex_position(*c)).collect();
    assert_eq!(positions, vec![(0, 0), (1, 1), (0, 1), (0, 0), (1, 0), (1, 1)]);
    let uvs: Vec<UvCorner> = (0..QUAD_VERTEX_COUNT).map(uv_corner).collect();
    assert_eq!(
        uvs,
        vec![UvCorner::TopLeft, UvCorner::BottomRight, UvCorner::BottomLeft, UvCorner::TopLeft, UvCorner::TopRight, UvCorner::BottomRight]
    );
}

#[test]
fn vec_tracker_new_and_ids() {
    let mut t: VecTracker<i32, u64, (), (), ()> = VecTracker::new(vec![1, 2, 3]);
    assert_eq!(t.id, u64::default());
    assert_eq!(t.props.data, vec![1, 2, 3]);
    assert!(t.props.styles.is_none() && t.props.children.is_none() && t.props.on_event.is_none());
    assert_eq!(t.get_id(), 0);
    t.set_id(9);
    assert_eq!(t.get_id(), 9);
    assert_eq!(t.props.get_focusable(), Some(false));
    let props = VecTrackerProps { data: vec![5], styles: Some(()), children: None, on_event: None };
    let c: VecTracker<i32, u64, (), (), ()> = VecTracker::constructor(props);
    assert_eq!(c.props.data, vec![5]);
    assert_eq!(c.get_id(), 0);
}

#[test]
fn image_groups_fit_layout() {
    let layout = image_layout();
    for group in [ImageGroup::Default, ImageGroup::QuadImage, ImageGroup::Font, ImageGroup::OpacityLayer] {
        let entries = group_entries(group);
        assert_eq!(entries.len(), layout.len());
        for (e, l) in entries.iter().zip(layout.iter()) {
            assert_eq!(e.binding, l.binding);
            let kind = match e.resource {
                EntryResource::Sampler(_) => BindingKind::Sampler,
                EntryResource::View(TextureSlot::FontAtlas) | EntryResource::View(TextureSlot::EmptyFontAtlas) => {
                    BindingKind::Texture2dArray
                }
                EntryResource::View(_) => BindingKind::Texture2d,
            };
            assert_eq!(kind, l.kind);
        }
    }
    assert_eq!(group_entries(ImageGroup::Font)[2].resource, EntryResource::View(TextureSlot::FontAtlas));
}
