use kayak_ui::layers::{ExtractedQuads, LayerVisit};
use kayak_ui::quad_type::UIQuadType;
use kayak_ui::quads::{ExtractedQuad, QuadOrMaterial};

type Item = QuadOrMaterial<&'static str, u32>;

fn quad(ty: UIQuadType, name: &'static str) -> Item {
    let mut q = ExtractedQuad::with_defaults(0u32, name);
    q.quad_type = ty;
    QuadOrMaterial::Quad(q)
}

fn ids(visits: &[LayerVisit]) -> Vec<usize> {
    visits.iter().map(|v| v.layer_id).collect()
}

#[test]
fn new_and_default_are_empty() {
    let a: ExtractedQuads<Item, f32> = ExtractedQuads::new();
    let b: ExtractedQuads<Item, f32> = ExtractedQuads::default();
    assert_eq!(a.layer_count(), 0);
    assert_eq!(b.layer_count(), 0);
    assert_eq!(a.current_layer(), 0);
    assert!(a.layer(0).is_none());
}

#[test]
fn first_layer_is_its_own_parent() {
    let mut q: ExtractedQuads<Item, f32> = ExtractedQuads::new();
    q.new_layer(3.0, 0.0);
    assert_eq!(q.layer_count(), 1);
    assert_eq!(q.current_layer(), 0);
    let root = q.layer(0).unwrap();
    assert_eq!(root.parent_id, 0);
    assert_eq!(root.custom_z, 3.0);
    assert_eq!(root.z, 0.0);
    assert!(root.quads.is_empty());
}

#[test]
fn push_and_extend_go_to_current_layer() {
    let mut q: ExtractedQuads<Item, f32> = ExtractedQuads::new();
    q.new_layer(0.0, 0.0);
    q.push(quad(UIQuadType::Quad, "a"));
    q.new_layer(0.0, 0.0);
    q.extend(vec![quad(UIQuadType::Text, "b"), QuadOrMaterial::Material(7)]);
    q.pop_stack();
    q.push(quad(UIQuadType::Image, "c"));
    assert_eq!(q.layer(0).unwrap().quads.len(), 2);
    assert_eq!(q.layer(1).unwrap().quads.len(), 2);
    assert_eq!(q.layer(1).unwrap().quads[1].get_entity(), 7);
}

#[test]
fn new_layer_then_pop_returns_to_parent() {
    let mut q: ExtractedQuads<Item, f32> = ExtractedQuads::new();
    q.new_layer(0.0, 0.0);
    q.new_layer(0.0, 0.0);
    assert_eq!(q.current_layer(), 1);
    q.new_layer(0.0, 0.0);
    assert_eq!(q.current_layer(), 2);
    assert_eq!(q.layer(2).unwrap().parent_id, 1);
    q.pop_stack();
    assert_eq!(q.current_layer(), 1);
    q.pop_stack();
    assert_eq!(q.current_layer(), 0);
    q.pop_stack();
    assert_eq!(q.current_layer(), 0);
}

fn sample_tree() -> ExtractedQuads<Item, f32> {
    // 0 -> {1, 2}, 2 -> {3}
    let mut q: ExtractedQuads<Item, f32> = ExtractedQuads::new();
    q.new_layer(0.0, 0.0);
    q.new_layer(0.0, 0.0);
    q.pop_stack();
    q.new_layer(0.0, 0.0);
    q.new_layer(0.0, 0.0);
    q
}

#[test]
fn resolve_order_is_depth_first_latest_child_first() {
    let q = sample_tree();
    let visits = q.resolve_order();
    assert_eq!(ids(&visits), vec![0, 2, 3, 1]);
    let parents: Vec<usize> = visits.iter().map(|v| v.parent_id).collect();
    assert_eq!(parents, vec![0, 0, 2, 0]);
    let depths: Vec<usize> = visits.iter().map(|v| v.depth).collect();
    assert_eq!(depths, vec![0, 2, 3, 1]);
}

#[test]
fn resolve_order_visits_parents_first() {
    let mut q: ExtractedQuads<Item, f32> = ExtractedQuads::new();
    q.new_layer(0.0, 0.0);
    for _ in 0..4 {
        q.new_layer(0.0, 0.0);
        q.new_layer(0.0, 0.0);
        q.pop_stack();
    }
    let visits = q.resolve_order();
    assert_eq!(visits.len(), q.layer_count());
    for (j, v) in visits.iter().enumerate() {
        if j > 0 {
            assert!(visits[..j].iter().any(|a| a.layer_id == v.parent_id));
        }
    }
    let mut sorted = ids(&visits);
    sorted.sort();
    assert_eq!(sorted, (0..q.layer_count()).collect::<Vec<_>>());
}

#[test]
fn clear_forgets_everything() {
    let mut q = sample_tree();
    q.clear();
    assert_eq!(q.layer_count(), 0);
    assert_eq!(q.current_layer(), 0);
    q.new_layer(0.0, 0.0);
    q.new_layer(0.0, 0.0);
    assert_eq!(ids(&q.resolve_order()), vec![0, 1]);
}

#[test]
fn set_depths_and_replace_quads() {
    let mut q = sample_tree();
    q.set_depths(2, 5.5, 1.0);
    assert_eq!(q.layer(2).unwrap().z, 5.5);
    assert_eq!(q.layer(2).unwrap().custom_z, 1.0);
    let taken = q.replace_quads(3, vec![quad(UIQuadType::Text, "x")]);
    assert!(taken.is_empty());
    assert_eq!(q.layer(3).unwrap().quads.len(), 1);
    let back = q.replace_quads(3, Vec::new());
    assert_eq!(back.len(), 1);
    assert!(q.layer(3).unwrap().quads.is_empty());
}

#[test]
fn iter_skips_materials_and_untyped_quads() {
    let mut q: ExtractedQuads<Item, f32> = ExtractedQuads::new();
    q.new_layer(0.0, 0.0);
    q.push(quad(UIQuadType::Quad, "a"));
    q.push(QuadOrMaterial::Material(1));
    q.new_layer(0.0, 0.0);
    q.push(quad(UIQuadType::NoType, "hidden"));
    q.push(quad(UIQuadType::Text, "b"));
    q.pop_stack();
    q.push(quad(UIQuadType::Clip, "c"));
    let names: Vec<&str> = q.iter().iter().map(|x| x.render_data).collect();
    assert_eq!(names, vec!["a", "c", "b"]);
}

#[test]
fn debug_lists_type_changes_in_depth_order() {
    let mut q: ExtractedQuads<Item, f32> = ExtractedQuads::new();
    q.new_layer(0.0, 0.0);
    q.push(quad(UIQuadType::Text, "t1"));
    q.push(quad(UIQuadType::Text, "t2"));
    q.push(QuadOrMaterial::Material(4));
    q.push(quad(UIQuadType::Quad, "q1"));
    q.push(quad(UIQuadType::Text, "t3"));
    q.new_layer(0.0, 0.0);
    q.push(quad(UIQuadType::NoType, "n"));
    q.push(quad(UIQuadType::Image, "i"));
    let entries: Vec<(usize, &str)> = q.debug().iter().map(|(indent, x)| (*indent, x.render_data)).collect();
    assert_eq!(entries, vec![(1, "t1"), (1, "q1"), (1, "t3"), (1, "i")]);
}
