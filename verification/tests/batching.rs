use kayak_ui::batching::{BatchState, ClipSource, ImageState, OpacityTarget, Phase, PhaseItem, QuadEvent};
use kayak_ui::quad_type::{QuadTypeOffsets, UIQuadType};

fn offs() -> QuadTypeOffsets {
    QuadTypeOffsets::from_record_offsets(&vec![16, 32, 48, 64, 80])
}

fn event(ty: UIQuadType, previous: UIQuadType) -> QuadEvent {
    QuadEvent {
        camera_matches: true,
        quad_type: ty,
        previous_type: previous,
        previous_opacity_layer: 0,
        clip_too_small: false,
        batch_differs: false,
        image: ImageState::Absent,
        font_ready: false,
        opacity_target: OpacityTarget::NoCameraLayer,
    }
}

#[test]
fn new_state_is_empty() {
    let s = BatchState::new(&offs());
    assert_eq!(s.batch_type, UIQuadType::NoType);
    assert_eq!(s.batch_type_index, 16);
    assert!(!s.has_batch_entity);
    assert_eq!((s.index, s.item_start, s.item_end, s.old_item_start), (0, 0, 0, 0));
}

#[test]
fn first_quad_starts_and_spawns_a_batch() {
    let mut s = BatchState::new(&offs());
    let mut buf: Vec<u8> = Vec::new();
    let a = s.step(event(UIQuadType::Quad, UIQuadType::Quad), &offs());
    assert!(a.start_batch && a.spawn_batch && a.emit_vertices);
    assert!(!a.store_previous_batch);
    assert_eq!(a.close, None);
    s.write_vertices(&mut buf, vec![0u8; 6]);
    assert_eq!(s.index, 6);
    assert_eq!(s.item_end, 6);
    assert!(s.has_batch_entity);
}

#[test]
fn same_batch_only_emits() {
    let mut s = BatchState::new(&offs());
    let mut buf: Vec<u8> = Vec::new();
    s.step(event(UIQuadType::Text, UIQuadType::Quad), &offs());
    s.write_vertices(&mut buf, vec![0u8; 6]);
    let a = s.step(event(UIQuadType::Text, UIQuadType::Text), &offs());
    assert!(!a.start_batch && !a.spawn_batch && a.emit_vertices);
    assert_eq!(a.close, None);
    s.write_vertices(&mut buf, vec![0u8; 6]);
    assert_eq!(s.index, 12);
}

#[test]
fn type_change_closes_previous_batch() {
    let mut s = BatchState::new(&offs());
    let mut buf: Vec<u8> = Vec::new();
    s.step(event(UIQuadType::Text, UIQuadType::Quad), &offs());
    s.write_vertices(&mut buf, vec![0u8; 6]);
    s.write_vertices(&mut buf, vec![0u8; 6]);
    let a = s.step(event(UIQuadType::Image, UIQuadType::Text), &offs());
    assert!(a.store_previous_batch);
    assert_eq!(a.close, Some(PhaseItem { phase: Phase::Transparent, clip: ClipSource::Last, quad_type: UIQuadType::Text, opacity_layer: 0, type_index: 48, start: 0, end: 12 }));
    assert_eq!(s.item_start, 12);
    assert_eq!(s.old_item_start, 12);
    s.write_vertices(&mut buf, vec![0u8; 6]);
    let b = s.step(event(UIQuadType::Quad, UIQuadType::Image), &offs());
    assert_eq!(b.close, Some(PhaseItem { phase: Phase::Transparent, clip: ClipSource::Last, quad_type: UIQuadType::Image, opacity_layer: 0, type_index: 64, start: 12, end: 18 }));
}

#[test]
fn opacity_layer_quads_go_to_opacity_phase() {
    let mut s = BatchState::new(&offs());
    let mut buf: Vec<u8> = Vec::new();
    s.step(event(UIQuadType::Quad, UIQuadType::Quad), &offs());
    s.write_vertices(&mut buf, vec![0u8; 6]);
    let mut e = event(UIQuadType::Text, UIQuadType::Quad);
    e.previous_opacity_layer = 2;
    let a = s.step(e, &offs());
    assert_eq!(a.close.unwrap().phase, Phase::Opacity);
    assert_eq!(a.close.unwrap().clip, ClipSource::Current);
    assert_eq!(a.close.unwrap().opacity_layer, 2);
    assert_eq!(a.close.unwrap().type_index, 16);
    assert_eq!(s.batch_type_index, 48);
}

#[test]
fn skipped_quads_change_nothing() {
    let mut s = BatchState::new(&offs());
    let mut buf: Vec<u8> = Vec::new();
    s.step(event(UIQuadType::Quad, UIQuadType::Quad), &offs());
    s.write_vertices(&mut buf, vec![0u8; 6]);
    let before = s;
    let mut e = event(UIQuadType::Image, UIQuadType::Quad);
    e.camera_matches = false;
    let a = s.step(e, &offs());
    assert!(!a.emit_vertices && !a.start_batch && !a.set_clip);
    assert_eq!(s, before);
    let a = s.step(event(UIQuadType::OpacityLayer, UIQuadType::Quad), &offs());
    assert!(!a.emit_vertices);
    let a = s.step(event(UIQuadType::NoType, UIQuadType::Quad), &offs());
    assert!(!a.emit_vertices);
    let mut e = event(UIQuadType::Quad, UIQuadType::Quad);
    e.clip_too_small = true;
    let a = s.step(e, &offs());
    assert!(!a.emit_vertices);
    assert_eq!(s, before);
}

#[test]
fn clip_sets_clip_and_writes_no_vertices() {
    let mut s = BatchState::new(&offs());
    let mut buf: Vec<u8> = Vec::new();
    s.step(event(UIQuadType::Quad, UIQuadType::Quad), &offs());
    s.write_vertices(&mut buf, vec![0u8; 6]);
    let mut e = event(UIQuadType::Clip, UIQuadType::Quad);
    e.clip_too_small = true;
    let a = s.step(e, &offs());
    assert!(a.set_clip && a.start_batch && !a.spawn_batch && !a.emit_vertices);
    assert_eq!(a.close, Some(PhaseItem { phase: Phase::Transparent, clip: ClipSource::Last, quad_type: UIQuadType::Quad, opacity_layer: 0, type_index: 16, start: 0, end: 6 }));
    assert_eq!(s.batch_type, UIQuadType::Clip);
    // the quad after a clip starts a new batch but closes nothing
    let b = s.step(event(UIQuadType::Quad, UIQuadType::Clip), &offs());
    assert!(b.start_batch && b.spawn_batch && b.emit_vertices);
    assert_eq!(b.close, None);
    assert!(!b.store_previous_batch);
}

#[test]
fn missing_image_stops_after_closing() {
    let mut s = BatchState::new(&offs());
    let mut buf: Vec<u8> = Vec::new();
    s.step(event(UIQuadType::Quad, UIQuadType::Quad), &offs());
    s.write_vertices(&mut buf, vec![0u8; 6]);
    let mut e = event(UIQuadType::Image, UIQuadType::Quad);
    e.image = ImageState::Missing;
    e.font_ready = true;
    let a = s.step(e, &offs());
    assert!(a.close.is_some());
    assert!(!a.bind_image && !a.bind_font && !a.start_batch && !a.emit_vertices);
    assert_eq!(s.batch_type, UIQuadType::Quad);
}

#[test]
fn ready_image_and_font_are_bound() {
    let mut s = BatchState::new(&offs());
    let mut e = event(UIQuadType::Image, UIQuadType::Quad);
    e.image = ImageState::Ready;
    e.font_ready = true;
    let a = s.step(e, &offs());
    assert!(a.bind_image && a.bind_font && a.start_batch);
}

#[test]
fn opacity_target_missing_stops_draw_opacity_layer() {
    let mut s = BatchState::new(&offs());
    let mut e = event(UIQuadType::DrawOpacityLayer, UIQuadType::Quad);
    e.opacity_target = OpacityTarget::Missing;
    let a = s.step(e, &offs());
    assert!(!a.start_batch && !a.emit_vertices && !a.bind_opacity_target);
    e.opacity_target = OpacityTarget::Ready;
    let a = s.step(e, &offs());
    assert!(a.bind_opacity_target && a.start_batch && a.spawn_batch && a.emit_vertices);
    // a draw-opacity-layer quad always starts a new batch
    let b = s.step(e, &offs());
    assert!(b.start_batch);
}

#[test]
fn finish_view_queues_last_batch() {
    let mut s = BatchState::new(&offs());
    let mut buf: Vec<u8> = Vec::new();
    assert_eq!(s.finish_view(UIQuadType::Quad, 0, &offs()), None);
    s.step(event(UIQuadType::Text, UIQuadType::Quad), &offs());
    s.write_vertices(&mut buf, vec![0u8; 6]);
    assert_eq!(s.finish_view(UIQuadType::Text, 0, &offs()), Some(PhaseItem { phase: Phase::Transparent, clip: ClipSource::Last, quad_type: UIQuadType::Text, opacity_layer: 0, type_index: 48, start: 0, end: 6 }));
    assert_eq!(s.finish_view(UIQuadType::Text, 1, &offs()), Some(PhaseItem { phase: Phase::Opacity, clip: ClipSource::Last, quad_type: UIQuadType::Text, opacity_layer: 1, type_index: 48, start: 0, end: 6 }));
    assert_eq!(s.finish_view(UIQuadType::DrawOpacityLayer, 1, &offs()).unwrap().phase, Phase::Transparent);
    assert_eq!(s.finish_view(UIQuadType::Image, 0, &offs()).unwrap().type_index, 64);
    assert_eq!(s.finish_view(UIQuadType::Clip, 0, &offs()), None);
    assert_eq!(s.finish_view(UIQuadType::OpacityLayer, 0, &offs()), None);
}

#[test]
fn vertex_buffer_tracks_counter() {
    let mut s = BatchState::new(&offs());
    let mut buf: Vec<u32> = Vec::new();
    s.step(event(UIQuadType::Quad, UIQuadType::Quad), &offs());
    s.write_vertices(&mut buf, vec![1, 2, 3, 4, 5, 6]);
    s.step(event(UIQuadType::Text, UIQuadType::Quad), &offs());
    s.write_vertices(&mut buf, vec![7, 8, 9]);
    assert_eq!(buf, vec![1, 2, 3, 4, 5, 6, 7, 8, 9]);
    assert_eq!(buf.len(), s.index as usize);
    assert_eq!(s.item_end, 9);
}
