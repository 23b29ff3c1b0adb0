use vstd::prelude::*;
use crate::quad_type::UIQuadType;
use crate::layers::{ExtractedQuads, ZLayer, visit_ids, is_layer_tree};

verus! {

/// A quad extracted from the UI tree. The fields the render logic decides on
/// are plain values; `E` is the entity type, and `render_data` carries the
/// rest (rectangle, colour, depth, border radius, uv bounds and the font,
/// image and svg handles).
pub struct ExtractedQuad<P, E> {
    pub org_entity: E,
    pub camera_entity: E,
    pub char_id: u32,
    pub quad_type: UIQuadType,
    pub type_index: u32,
    pub opacity_layer: u32,
    pub c: char,
    pub render_data: P,
}

impl<P, E> ExtractedQuad<P, E> {
    /// The default quad: a plain `Quad` owned by `placeholder`, with no
    /// character, type index or opacity layer.
    pub fn with_defaults(placeholder: E, render_data: P) -> (quad: Self)
        where E: Copy,
        ensures
            quad.org_entity == placeholder,
            quad.camera_entity == placeholder,
            quad.char_id == 0,
            quad.quad_type == UIQuadType::Quad,
            quad.type_index == 0,
            quad.opacity_layer == 0,
            quad.c == ' ',
            quad.render_data == render_data,
    {
        ExtractedQuad {
            org_entity: placeholder,
            camera_entity: placeholder,
            char_id: 0,
            quad_type: UIQuadType::Quad,
            type_index: 0,
            opacity_layer: 0,
            c: ' ',
            render_data,
        }
    }
}

/// An entry of a depth layer: an extracted quad, or an entity drawn by a
/// material of its own.
pub enum QuadOrMaterial<P, E> {
    Quad(ExtractedQuad<P, E>),
    Material(E),
}

impl<P, E: Copy> QuadOrMaterial<P, E> {
    /// The entity the entry belongs to.
    pub fn get_entity(&self) -> (entity: E)
        ensures
            entity == match *self {
                QuadOrMaterial::Material(e) => e,
                QuadOrMaterial::Quad(q) => q.org_entity,
            },
    {
        match self {
            QuadOrMaterial::Material(entity) => *entity,
            QuadOrMaterial::Quad(quad) => quad.org_entity,
        }
    }
}

/// The quads among `items` that are drawn: every quad whose type is not
/// `NoType`, in order; materials are left out.
pub open spec fn drawn_in<P, E>(items: Seq<QuadOrMaterial<P, E>>) -> Seq<ExtractedQuad<P, E>>
    decreases items.len(),
{
    if items.len() == 0 {
        Seq::empty()
    } else {
        let before = drawn_in(items.drop_last());
        match items.last() {
            QuadOrMaterial::Quad(q) => if q.quad_type != UIQuadType::NoType {
                before.push(q)
            } else {
                before
            },
            QuadOrMaterial::Material(_) => before,
        }
    }
}

/// The drawn quads of all layers, layer by layer in creation order.
pub open spec fn drawn_quads<P, E, Z>(layers: Seq<ZLayer<QuadOrMaterial<P, E>, Z>>) -> Seq<ExtractedQuad<P, E>>
    decreases layers.len(),
{
    if layers.len() == 0 {
        Seq::empty()
    } else {
        drawn_quads(layers.drop_last()) + drawn_in(layers.last().quads@)
    }
}

pub open spec fn deref_all<T>(refs: Seq<&T>) -> Seq<T> {
    refs.map_values(|r: &T| *r)
}

pub open spec fn deref_entries<T>(entries: Seq<(usize, &T)>) -> Seq<(usize, T)> {
    entries.map_values(|e: (usize, &T)| (e.0, *e.1))
}

/// The quads of `items` that the debug dump lists: each quad whose type
/// differs from the type of the quad listed last (`last` at first);
/// materials are skipped.
pub open spec fn listed_in<P, E>(items: Seq<QuadOrMaterial<P, E>>, last: UIQuadType) -> Seq<ExtractedQuad<P, E>>
    decreases items.len(),
{
    if items.len() == 0 {
        Seq::empty()
    } else {
        match items[0] {
            QuadOrMaterial::Quad(q) => if q.quad_type != last {
                seq![q] + listed_in(items.drop_first(), q.quad_type)
            } else {
                listed_in(items.drop_first(), last)
            },
            QuadOrMaterial::Material(_) => listed_in(items.drop_first(), last),
        }
    }
}

/// The debug dump's entries for the layers visited in `order`: for each
/// layer, its listed quads, each indented by one more than the layer's
/// parent index.
pub open spec fn debug_entries<P, E, Z>(
    layers: Seq<ZLayer<QuadOrMaterial<P, E>, Z>>,
    order: Seq<usize>,
) -> Seq<(usize, ExtractedQuad<P, E>)>
    decreases order.len(),
{
    if order.len() == 0 {
        Seq::empty()
    } else {
        let layer = layers[order.last() as int];
        debug_entries(layers, order.drop_last()) + listed_in(layer.quads@, UIQuadType::NoType).map_values(
            |q: ExtractedQuad<P, E>| ((layer.parent_id + 1) as usize, q),
        )
    }
}

impl<P, E, Z> ExtractedQuads<QuadOrMaterial<P, E>, Z> {
    /// The quads to draw, layer by layer in creation order: materials and
    /// quads of type `NoType` are left out.
    pub fn iter(&self) -> (quads: Vec<&ExtractedQuad<P, E>>)
        ensures
            deref_all(quads@) == drawn_quads(self.layers()),
    {
        let mut out: Vec<&ExtractedQuad<P, E>> = Vec::new();
        let n = self.layer_count();
        let mut i: usize = 0;
        while i < n
            invariant
                n == self.layers().len(),
                i <= n,
                deref_all(out@) == drawn_quads(self.layers().take(i as int)),
            decreases n - i,
        {
            let layer = self.layer(i).unwrap();
            let m = layer.quads.len();
            let mut j: usize = 0;
            while j < m
                invariant
                    n == self.layers().len(),
                    i < n,
                    *layer == self.layers()[i as int],
                    m == layer.quads@.len(),
                    j <= m,
                    deref_all(out@) == drawn_quads(self.layers().take(i as int)) + drawn_in(layer.quads@.take(j as int)),
                decreases m - j,
            {
                let ghost prev = out@;
                proof {
                    assert(layer.quads@.take(j + 1).drop_last() =~= layer.quads@.take(j as int));
                    assert(layer.quads@.take(j + 1).last() == layer.quads@[j as int]);
                }
                match &layer.quads[j] {
                    QuadOrMaterial::Quad(q) => {
                        if q.quad_type != UIQuadType::NoType {
                            out.push(q);
                            proof {
                                assert(deref_all(out@) =~= deref_all(prev).push(*q));
                            }
                        }
                    },
                    QuadOrMaterial::Material(_) => {},
                }
                proof {
                    assert(deref_all(out@) =~= drawn_quads(self.layers().take(i as int)) + drawn_in(layer.quads@.take(j + 1)));
                }
                j = j + 1;
            }
            proof {
                assert(layer.quads@.take(m as int) =~= layer.quads@);
                assert(self.layers().take(i + 1).drop_last() =~= self.layers().take(i as int));
            }
            i = i + 1;
        }
        proof {
            assert(self.layers().take(n as int) =~= self.layers());
        }
        out
    }

    /// The entries of the debug dump, before they are sorted by depth: the
    /// layers in the order of the depth pass, and in each layer every quad
    /// whose type differs from the one listed before it, with the indent
    /// (one more than the layer's parent index) it is printed with.
    pub fn debug(&self) -> (entries: Vec<(usize, &ExtractedQuad<P, E>)>)
        requires
            self.wf(),
            self.layers().len() > 0,
        ensures
            deref_entries(entries@) == debug_entries(self.layers(), self.visit_order()),
    {
        let visits = self.resolve_order();
        proof {
            self.lemma_tree_shape();
        }
        let mut out: Vec<(usize, &ExtractedQuad<P, E>)> = Vec::new();
        let mut v: usize = 0;
        while v < visits.len()
            invariant
                self.wf(),
                visits@.len() == self.layers().len(),
                visit_ids(visits@) == self.visit_order(),
                forall|j: int|
                    0 <= j < visits.len() ==> #[trigger] visits[j].layer_id < self.layers().len()
                        && visits[j].parent_id == self.layers()[visits[j].layer_id as int].parent_id,
                v <= visits.len(),
                is_layer_tree(self.layers()),
                deref_entries(out@) == debug_entries(self.layers(), self.visit_order().take(v as int)),
            decreases visits.len() - v,
        {
            let visit = visits[v];
            let layer = self.layer(visit.layer_id).unwrap();
            proof {
                assert(visit.parent_id < self.layers().len()) by {
                    if visit.layer_id > 0 {
                        assert(self.layers()[visit.layer_id as int].parent_id < visit.layer_id);
                    }
                }
            }
            let indent = visit.parent_id + 1;
            let m = layer.quads.len();
            let ghost items = layer.quads@;
            let ghost before = out@;
            let ghost mut seg: Seq<ExtractedQuad<P, E>> = Seq::empty();
            let mut last_type = UIQuadType::NoType;
            let mut j: usize = 0;
            proof {
                assert(items.skip(0) =~= items);
                assert(seg + listed_in(items.skip(0), last_type) =~= listed_in(items, UIQuadType::NoType));
                assert(deref_entries(out@) =~= deref_entries(before) + seg.map_values(
                    |q: ExtractedQuad<P, E>| (indent, q),
                ));
            }
            while j < m
                invariant
                    items == layer.quads@,
                    m == items.len(),
                    j <= m,
                    indent == visit.parent_id + 1,
                    seg + listed_in(items.skip(j as int), last_type) == listed_in(items, UIQuadType::NoType),
                    deref_entries(out@) == deref_entries(before) + seg.map_values(
                        |q: ExtractedQuad<P, E>| (indent, q),
                    ),
                decreases m - j,
            {
                let ghost prev = out@;
                proof {
                    assert(items.skip(j as int).drop_first() =~= items.skip(j + 1));
                    assert(items.skip(j as int)[0] == items[j as int]);
                }
                match &layer.quads[j] {
                    QuadOrMaterial::Quad(q) => {
                        if last_type != q.quad_type {
                            out.push((indent, q));
                            proof {
                                seg = seg.push(*q);
                                assert(deref_entries(out@) =~= deref_entries(prev).push((indent, *q)));
                                assert(seg.map_values(|q: ExtractedQuad<P, E>| (indent, q)) =~= seg.drop_last().map_values(
                                    |q: ExtractedQuad<P, E>| (indent, q),
                                ).push((indent, *q)));
                                assert(seg.drop_last() + seq![*q] =~= seg);
                            }
                            last_type = q.quad_type;
                        }
                    },
                    QuadOrMaterial::Material(_) => {},
                }
                j = j + 1;
            }
            proof {
                assert(items.skip(m as int) =~= Seq::<QuadOrMaterial<P, E>>::empty());
                assert(seg =~= listed_in(items, UIQuadType::NoType));
                let order = self.visit_order();
                assert(order.take(v + 1).drop_last() =~= order.take(v as int));
                assert(order.take(v + 1).last() == visit.layer_id);
            }
            v = v + 1;
        }
        proof {
            assert(self.visit_order().take(visits.len() as int) =~= self.visit_order());
        }
        out
    }
}

/// The drawn quads of a list of entries are exactly its quads whose type is
/// not `NoType`: each such quad is drawn, whatever its type, and each drawn
/// quad is one of them.
pub proof fn lemma_drawn_in_members<P, E>(items: Seq<QuadOrMaterial<P, E>>)
    ensures
        forall|j: int|
            #![trigger items[j]]
            0 <= j < items.len() ==> (items[j] matches QuadOrMaterial::Quad(q) ==> (q.quad_type
                != UIQuadType::NoType ==> drawn_in(items).contains(q))),
        forall|k: int|
            0 <= k < drawn_in(items).len() ==> (#[trigger] drawn_in(items)[k]).quad_type != UIQuadType::NoType
                && exists|j: int| 0 <= j < items.len() && items[j] == QuadOrMaterial::Quad(drawn_in(items)[k]),
    decreases items.len(),
{
    if items.len() > 0 {
        let rest = items.drop_last();
        lemma_drawn_in_members(rest);
        let before = drawn_in(rest);
        let d = drawn_in(items);
        assert forall|j: int|
            #![trigger items[j]]
            0 <= j < items.len() implies (items[j] matches QuadOrMaterial::Quad(q) ==> (q.quad_type
                != UIQuadType::NoType ==> d.contains(q))) by {
            if let QuadOrMaterial::Quad(q) = items[j] {
                if q.quad_type != UIQuadType::NoType {
                    if j < items.len() - 1 {
                        assert(rest[j] == items[j]);
                        assert(before.contains(q));
                        let w = choose|w: int| 0 <= w < before.len() && before[w] == q;
                        assert(d[w] == q);
                    } else {
                        assert(d[d.len() - 1] == q);
                    }
                }
            }
        }
        assert forall|k: int| 0 <= k < d.len() implies (#[trigger] d[k]).quad_type != UIQuadType::NoType
            && exists|j: int| 0 <= j < items.len() && items[j] == QuadOrMaterial::Quad(d[k]) by {
            if k < before.len() {
                assert(d[k] == before[k]);
                assert(before[k].quad_type != UIQuadType::NoType);
                let j = choose|j: int| 0 <= j < rest.len() && rest[j] == QuadOrMaterial::Quad(before[k]);
                assert(items[j] == rest[j]);
            } else {
                assert(items[items.len() - 1] == QuadOrMaterial::Quad(d[k]));
            }
        }
    }
}

/// The quads to draw are exactly the quads of all layers whose type is not
/// `NoType`: each such quad, of any other type, is among them, and each of
/// them is such a quad of some layer.
pub proof fn lemma_drawn_quads_members<P, E, Z>(layers: Seq<ZLayer<QuadOrMaterial<P, E>, Z>>)
    ensures
        forall|i: int, j: int|
            #![trigger layers[i].quads@[j]]
            0 <= i < layers.len() && 0 <= j < layers[i].quads@.len() ==> (layers[i].quads@[j] matches QuadOrMaterial::Quad(
                q,
            ) ==> (q.quad_type != UIQuadType::NoType ==> drawn_quads(layers).contains(q))),
        forall|k: int|
            0 <= k < drawn_quads(layers).len() ==> (#[trigger] drawn_quads(layers)[k]).quad_type
                != UIQuadType::NoType && exists|i: int, j: int|
                0 <= i < layers.len() && 0 <= j < layers[i].quads@.len() && layers[i].quads@[j]
                    == QuadOrMaterial::Quad(drawn_quads(layers)[k]),
    decreases layers.len(),
{
    if layers.len() > 0 {
        let rest = layers.drop_last();
        let last = layers.last().quads@;
        lemma_drawn_quads_members(rest);
        lemma_drawn_in_members(last);
        let before = drawn_quads(rest);
        let tail = drawn_in(last);
        let d = drawn_quads(layers);
        assert(d == before + tail);
        assert forall|i: int, j: int|
            #![trigger layers[i].quads@[j]]
            0 <= i < layers.len() && 0 <= j < layers[i].quads@.len() implies (layers[i].quads@[j] matches QuadOrMaterial::Quad(
                q,
            ) ==> (q.quad_type != UIQuadType::NoType ==> d.contains(q))) by {
            if let QuadOrMaterial::Quad(q) = layers[i].quads@[j] {
                if q.quad_type != UIQuadType::NoType {
                    if i < layers.len() - 1 {
                        assert(rest[i] == layers[i]);
                        assert(rest[i].quads@[j] == layers[i].quads@[j]);
                        assert(before.contains(q));
                        let w = choose|w: int| 0 <= w < before.len() && before[w] == q;
                        assert(d[w] == q);
                    } else {
                        assert(last[j] == layers[i].quads@[j]);
                        assert(tail.contains(q));
                        let w = choose|w: int| 0 <= w < tail.len() && tail[w] == q;
                        assert(d[before.len() + w] == q);
                    }
                }
            }
        }
        assert forall|k: int| 0 <= k < d.len() implies (#[trigger] d[k]).quad_type != UIQuadType::NoType
            && exists|i: int, j: int|
            0 <= i < layers.len() && 0 <= j < layers[i].quads@.len() && layers[i].quads@[j]
                == QuadOrMaterial::Quad(d[k]) by {
            if k < before.len() {
                assert(d[k] == before[k]);
                assert(before[k].quad_type != UIQuadType::NoType);
                let (i, j) = choose|i: int, j: int|
                    0 <= i < rest.len() && 0 <= j < rest[i].quads@.len() && rest[i].quads@[j]
                        == QuadOrMaterial::Quad(before[k]);
                assert(layers[i] == rest[i]);
            } else {
                let t = k - before.len();
                assert(d[k] == tail[t]);
                assert(tail[t].quad_type != UIQuadType::NoType);
                let j = choose|j: int| 0 <= j < last.len() && last[j] == QuadOrMaterial::Quad(tail[t]);
                assert(layers[layers.len() - 1].quads@[j] == last[j]);
            }
        }
    }
}

/// The type of the last quad before position `j` of `items` (materials are
/// passed over), or `start` when there is none.
pub open spec fn type_before<P, E>(items: Seq<QuadOrMaterial<P, E>>, j: int, start: UIQuadType) -> UIQuadType
    decreases j,
{
    if j <= 0 {
        start
    } else {
        match items[j - 1] {
            QuadOrMaterial::Quad(p) => p.quad_type,
            QuadOrMaterial::Material(_) => type_before(items, j - 1, start),
        }
    }
}

proof fn lemma_type_before_shift<P, E>(items: Seq<QuadOrMaterial<P, E>>, j: int, start: UIQuadType)
    requires
        1 <= j <= items.len(),
    ensures
        type_before(items, j, start) == type_before(items.drop_first(), j - 1, type_after_head(items, start)),
    decreases j,
{
    let rest = items.drop_first();
    let next = match items[0] {
        QuadOrMaterial::Quad(p) => p.quad_type,
        QuadOrMaterial::Material(_) => start,
    };
    if j == 1 {
        assert(type_before(items, 0, start) == start);
        assert(type_before(rest, 0, next) == next);
    } else {
        assert(items[j - 1] == rest[j - 2]);
        lemma_type_before_shift(items, j - 1, start);
        match items[j - 1] {
            QuadOrMaterial::Quad(p) => {
                assert(type_before(items, j, start) == p.quad_type);
                assert(type_before(rest, j - 1, next) == p.quad_type);
            },
            QuadOrMaterial::Material(_) => {
                assert(type_before(items, j, start) == type_before(items, j - 1, start));
                assert(type_before(rest, j - 1, next) == type_before(rest, j - 2, next));
            },
        }
    }
}

/// Whether the first entry of `items` is listed after a quad of type `start`.
pub open spec fn head_listed<P, E>(items: Seq<QuadOrMaterial<P, E>>, start: UIQuadType) -> bool {
    match items[0] {
        QuadOrMaterial::Quad(p) => p.quad_type != start,
        QuadOrMaterial::Material(_) => false,
    }
}

/// The type the listing carries past the first entry of `items`.
pub open spec fn type_after_head<P, E>(items: Seq<QuadOrMaterial<P, E>>, start: UIQuadType) -> UIQuadType {
    match items[0] {
        QuadOrMaterial::Quad(p) => p.quad_type,
        QuadOrMaterial::Material(_) => start,
    }
}

proof fn lemma_listed_unfold<P, E>(items: Seq<QuadOrMaterial<P, E>>, start: UIQuadType)
    requires
        items.len() > 0,
    ensures
        ({
            let l = listed_in(items, start);
            let lr = listed_in(items.drop_first(), type_after_head(items, start));
            let h: int = if head_listed(items, start) { 1 } else { 0 };
            &&& l.len() == lr.len() + h
            &&& forall|k: int| 0 <= k < lr.len() ==> #[trigger] lr[k] == l[k + h]
            &&& head_listed(items, start) ==> items[0] == QuadOrMaterial::Quad(l[0])
        }),
{
    let l = listed_in(items, start);
    let lr = listed_in(items.drop_first(), type_after_head(items, start));
    match items[0] {
        QuadOrMaterial::Quad(q0) => {
            if q0.quad_type != start {
                assert(l == seq![q0] + lr);
            } else {
                assert(l == lr);
            }
        },
        QuadOrMaterial::Material(_) => {
            assert(l == lr);
        },
    }
}

proof fn lemma_listed_covers<P, E>(items: Seq<QuadOrMaterial<P, E>>, start: UIQuadType)
    ensures
        forall|j: int|
            #![trigger items[j]]
            0 <= j < items.len() ==> (items[j] matches QuadOrMaterial::Quad(q) ==> (q.quad_type
                != type_before(items, j, start) ==> listed_in(items, start).contains(q))),
    decreases items.len(),
{
    if items.len() > 0 {
        let rest = items.drop_first();
        let next = type_after_head(items, start);
        lemma_listed_covers(rest, next);
        lemma_listed_unfold(items, start);
        let l = listed_in(items, start);
        let lr = listed_in(rest, next);
        let h: int = if head_listed(items, start) { 1 } else { 0 };
        assert forall|j: int|
            #![trigger items[j]]
            0 <= j < items.len() implies (items[j] matches QuadOrMaterial::Quad(q) ==> (q.quad_type
                != type_before(items, j, start) ==> l.contains(q))) by {
            if let QuadOrMaterial::Quad(q) = items[j] {
                if q.quad_type != type_before(items, j, start) {
                    if j == 0 {
                        assert(head_listed(items, start));
                        assert(l[0] == q);
                    } else {
                        lemma_type_before_shift(items, j, start);
                        assert(rest[j - 1] == items[j]);
                        assert(lr.contains(q));
                        let w = choose|w: int| 0 <= w < lr.len() && lr[w] == q;
                        assert(l[w + h] == q);
                    }
                }
            }
        }
    }
}

proof fn lemma_listed_sound<P, E>(items: Seq<QuadOrMaterial<P, E>>, start: UIQuadType)
    ensures
        forall|k: int|
            0 <= k < listed_in(items, start).len() ==> exists|j: int|
                0 <= j < items.len() && items[j] == QuadOrMaterial::Quad(#[trigger] listed_in(items, start)[k])
                    && listed_in(items, start)[k].quad_type != type_before(items, j, start),
    decreases items.len(),
{
    if items.len() > 0 {
        let rest = items.drop_first();
        let next = type_after_head(items, start);
        lemma_listed_sound(rest, next);
        lemma_listed_unfold(items, start);
        let l = listed_in(items, start);
        let lr = listed_in(rest, next);
        let h: int = if head_listed(items, start) { 1 } else { 0 };
        assert forall|k: int| 0 <= k < l.len() implies exists|j: int|
            0 <= j < items.len() && items[j] == QuadOrMaterial::Quad(#[trigger] l[k]) && l[k].quad_type
                != type_before(items, j, start) by {
            if k < h {
                assert(items[0] == QuadOrMaterial::Quad(l[0]));
                assert(type_before(items, 0, start) == start);
            } else {
                assert(lr[k - h] == l[k]);
                let j = choose|j: int|
                    0 <= j < rest.len() && rest[j] == QuadOrMaterial::Quad(lr[k - h]) && lr[k - h].quad_type
                        != type_before(rest, j, next);
                lemma_type_before_shift(items, j + 1, start);
                assert(items[j + 1] == rest[j]);
            }
        }
    }
}

/// The debug dump lists a quad of a layer exactly when its type differs
/// from the type of the quad before it in the layer (materials passed over;
/// `start` before the first quad), whatever that type is: in particular the
/// first quad is listed unless its type is `start`. Every listed quad is
/// such a quad of the layer.
pub proof fn lemma_listed_members<P, E>(items: Seq<QuadOrMaterial<P, E>>, start: UIQuadType)
    ensures
        forall|j: int|
            #![trigger items[j]]
            0 <= j < items.len() ==> (items[j] matches QuadOrMaterial::Quad(q) ==> (q.quad_type
                != type_before(items, j, start) ==> listed_in(items, start).contains(q))),
        forall|k: int|
            0 <= k < listed_in(items, start).len() ==> exists|j: int|
                0 <= j < items.len() && items[j] == QuadOrMaterial::Quad(#[trigger] listed_in(items, start)[k])
                    && listed_in(items, start)[k].quad_type != type_before(items, j, start),
        items.len() > 0 ==> (items[0] matches QuadOrMaterial::Quad(q) ==> (q.quad_type != start
            ==> listed_in(items, start).len() > 0 && listed_in(items, start)[0] == q)),
{
    lemma_listed_covers(items, start);
    lemma_listed_sound(items, start);
    if items.len() > 0 {
        lemma_listed_unfold(items, start);
    }
}

} // verus!
