use vstd::prelude::*;
use crate::layer_maps::{ChildLists, ParentLinks, child_lists_contents, parent_links_contents};
use crate::visit_order::{subtree_order, stack_order, lemma_children_order_is_stack_order, lemma_stack_order_append, lemma_stack_order_nonempty, lemma_covering_len};

verus! {

/// One depth layer of extracted quads. `Z` is the depth value type (the
/// renderer uses `f32`), `Q` the quad type.
pub struct ZLayer<Q, Z> {
    pub z: Z,
    pub custom_z: Z,
    pub parent_id: usize,
    pub quads: Vec<Q>,
}

/// The quads extracted in one frame, grouped into a tree of depth layers.
///
/// Layer 0 is the root and is its own parent; every later layer is created
/// under the layer that is current at that moment, so its parent has a
/// smaller index.
pub struct ExtractedQuads<Q, Z> {
    layers: Vec<ZLayer<Q, Z>>,
    current_layer: usize,
    current_index: usize,
    children: ChildLists,
    parents: ParentLinks,
}

/// One step of the depth pass: a layer, its parent, and the base depth the
/// pass gives the layer (the larger of the two indices).
#[derive(Debug, Clone, Copy, PartialEq, Eq, Structural)]
pub struct LayerVisit {
    pub layer_id: usize,
    pub parent_id: usize,
    pub depth: usize,
}

/// The layers named by a sequence of visits.
pub open spec fn visit_ids(visits: Seq<LayerVisit>) -> Seq<usize> {
    visits.map_values(|v: LayerVisit| v.layer_id)
}

/// Every layer is reached from the root when each layer whose parent was
/// reached is reached too.
proof fn lemma_all_reached<Q, Z>(layers: Seq<ZLayer<Q, Z>>, ids: Seq<usize>, i: int)
    requires
        is_layer_tree(layers),
        ids.contains(0),
        0 <= i < layers.len(),
        forall|j: int|
            0 < j < layers.len() && ids.contains(#[trigger] layers[j].parent_id) ==> ids.contains(
                j as usize,
            ),
    ensures
        ids.contains(i as usize),
    decreases i,
{
    if i > 0 {
        lemma_all_reached(layers, ids, layers[i].parent_id as int);
    }
}

/// `list` is the increasing list of the non-root layers whose parent is `k`.
pub open spec fn is_child_list<Q, Z>(layers: Seq<ZLayer<Q, Z>>, k: usize, list: Seq<usize>) -> bool {
    &&& forall|a: int, b: int| 0 <= a < b < list.len() ==> list[a] < list[b]
    &&& forall|a: int|
        0 <= a < list.len() ==> 0 < #[trigger] list[a] < layers.len() && layers[list[a] as int].parent_id
            == k
    &&& forall|i: int|
        0 < i < layers.len() && #[trigger] layers[i].parent_id == k ==> list.contains(i as usize)
}

/// The parent links form a tree rooted at layer 0: the root is its own
/// parent and every other layer's parent was created before it.
pub open spec fn is_layer_tree<Q, Z>(layers: Seq<ZLayer<Q, Z>>) -> bool {
    &&& layers.len() > 0 ==> layers[0].parent_id == 0
    &&& forall|i: int| 0 < i < layers.len() ==> #[trigger] layers[i].parent_id < i
}

/// `after` is `before` with its quads replaced by `quads`.
pub open spec fn quads_replaced<Q, Z>(before: ZLayer<Q, Z>, after: ZLayer<Q, Z>, quads: Seq<Q>) -> bool {
    &&& after.z == before.z
    &&& after.custom_z == before.custom_z
    &&& after.parent_id == before.parent_id
    &&& after.quads@ == quads
}

/// `after` is `before` with the quads of layer `k` replaced by `quads`.
pub open spec fn layer_quads_replaced<Q, Z>(
    before: Seq<ZLayer<Q, Z>>,
    after: Seq<ZLayer<Q, Z>>,
    k: int,
    quads: Seq<Q>,
) -> bool {
    &&& after.len() == before.len()
    &&& forall|i: int| 0 <= i < before.len() && i != k ==> #[trigger] after[i] == before[i]
    &&& quads_replaced(before[k], after[k], quads)
}

impl<Q, Z> ExtractedQuads<Q, Z> {
    /// The layers, in creation order.
    pub closed spec fn layers(self) -> Seq<ZLayer<Q, Z>> {
        self.layers@
    }

    /// The layer that new quads go to.
    pub closed spec fn current(self) -> usize {
        self.current_layer
    }

    /// The child lists, by parent layer.
    pub closed spec fn child_map(self) -> Map<usize, Seq<usize>> {
        child_lists_contents(self.children)
    }

    /// The child list kept for layer `k`.
    pub open spec fn child_list(self, k: usize) -> Seq<usize> {
        self.child_map()[k]
    }

    /// The invariant kept by every operation: the layers form a tree rooted
    /// at layer 0, the current layer exists when any layer does, the child
    /// lists and parent links describe exactly that tree.
    pub closed spec fn wf(self) -> bool {
        let n = self.layers@.len();
        &&& n == 0 ==> self.current_layer == 0 && self.current_index == 0
        &&& n > 0 ==> self.current_layer < n && self.current_index == n - 1
        &&& is_layer_tree(self.layers@)
        &&& forall|k: usize| #[trigger]
            child_lists_contents(self.children).contains_key(k) <==> k < n
        &&& forall|k: usize|
            k < n ==> is_child_list(self.layers@, k, #[trigger] child_lists_contents(self.children)[k])
        &&& forall|k: usize| #[trigger]
            parent_links_contents(self.parents).contains_key(k) <==> k < n
        &&& forall|k: usize|
            k < n ==> #[trigger] parent_links_contents(self.parents)[k] == self.layers@[k as int].parent_id
    }

    /// What every well-formed value guarantees: the layers form a tree
    /// rooted at layer 0, the current layer exists when any layer does, every layer and no other
    /// key has a child list, and
    /// each layer's child list holds exactly the layers created under it, in
    /// creation order.
    pub proof fn lemma_tree_shape(self)
        requires
            self.wf(),
        ensures
            is_layer_tree(self.layers()),
            self.layers().len() == 0 ==> self.current() == 0,
            self.layers().len() > 0 ==> self.current() < self.layers().len(),
            forall|k: usize| #[trigger] self.child_map().contains_key(k) <==> k < self.layers().len(),
            forall|k: usize|
                k < self.layers().len() ==> is_child_list(self.layers(), k, #[trigger] self.child_list(k)),
    {
    }

    /// Closing a layer right after opening it (`new_layer`, then
    /// `pop_stack`) makes the layer that was current before current again.
    pub proof fn lemma_pop_after_new_layer(before: Self, opened: Self)
        requires
            before.wf(),
            opened.wf(),
            opened.layers().len() == before.layers().len() + 1,
            opened.layers().drop_last() == before.layers(),
            opened.layers().last().parent_id == before.current(),
            opened.current() == before.layers().len(),
        ensures
            opened.layers()[opened.current() as int].parent_id == before.current(),
    {
    }

    /// An empty set of layers.
    pub fn new() -> (quads: Self)
        ensures
            quads.wf(),
            quads.layers() == Seq::<ZLayer<Q, Z>>::empty(),
            quads.current() == 0,
    {
        ExtractedQuads {
            layers: Vec::new(),
            current_layer: 0,
            current_index: 0,
            children: ChildLists::new(),
            parents: ParentLinks::new(),
        }
    }

    /// Forgets every layer and quad.
    pub fn clear(&mut self)
        ensures
            final(self).wf(),
            final(self).layers() == Seq::<ZLayer<Q, Z>>::empty(),
            final(self).current() == 0,
    {
        self.current_index = 0;
        self.current_layer = 0;
        self.layers.clear();
        self.children.clear();
        self.parents.clear();
    }

    pub fn layer_count(&self) -> (n: usize)
        ensures
            n == self.layers().len(),
    {
        self.layers.len()
    }

    pub fn current_layer(&self) -> (c: usize)
        ensures
            c == self.current(),
    {
        self.current_layer
    }

    /// The layer at `index`, if there is one.
    pub fn layer(&self, index: usize) -> (layer: Option<&ZLayer<Q, Z>>)
        ensures
            index < self.layers().len() <==> layer is Some,
            layer matches Some(l) ==> *l == self.layers()[index as int],
    {
        if index < self.layers.len() {
            Some(&self.layers[index])
        } else {
            None
        }
    }
    /// Adds a quad to the current layer.
    pub fn push(&mut self, quad: Q)
        requires
            old(self).wf(),
            old(self).layers().len() > 0,
        ensures
            final(self).child_map() == old(self).child_map(),
            final(self).wf(),
            final(self).current() == old(self).current(),
            layer_quads_replaced(
                old(self).layers(),
                final(self).layers(),
                old(self).current() as int,
                old(self).layers()[old(self).current() as int].quads@.push(quad),
            ),
    {
        let cur = self.current_layer;
        self.layers[cur].quads.push(quad);
    }
    /// Adds quads to the current layer, after the ones it holds.
    pub fn extend(&mut self, quads: Vec<Q>)
        requires
            old(self).wf(),
            old(self).layers().len() > 0,
        ensures
            final(self).child_map() == old(self).child_map(),
            final(self).wf(),
            final(self).current() == old(self).current(),
            layer_quads_replaced(
                old(self).layers(),
                final(self).layers(),
                old(self).current() as int,
                old(self).layers()[old(self).current() as int].quads@ + quads@,
            ),
    {
        let cur = self.current_layer;
        let mut quads = quads;
        self.layers[cur].quads.append(&mut quads);
    }

    /// Opens a new layer under the current one and makes it current.
    pub fn new_layer(&mut self, custom_z: Z, z: Z)
        requires
            old(self).wf(),
        ensures
            final(self).wf(),
            final(self).layers().len() == old(self).layers().len() + 1,
            final(self).layers().drop_last() == old(self).layers(),
            final(self).layers().last().custom_z == custom_z,
            final(self).layers().last().z == z,
            final(self).layers().last().parent_id == old(self).current(),
            final(self).layers().last().quads@ == Seq::<Q>::empty(),
            final(self).current() == old(self).layers().len(),
            old(self).layers().len() > 0 ==> final(self).child_map() == old(self).child_map().insert(
                old(self).current(),
                old(self).child_list(old(self).current()).push(old(self).layers().len() as usize),
            ).insert(old(self).layers().len() as usize, Seq::<usize>::empty()),
            old(self).layers().len() == 0 ==> final(self).child_map() == old(self).child_map().insert(
                0,
                Seq::<usize>::empty(),
            ),
    {
        let ghost old_layers = self.layers@;
        let n = self.layers.len();
        let cur = self.current_layer;
        self.current_index = n;
        match self.children.get_cloned(cur) {
            Some(c) => {
                let mut c = c;
                c.push(n);
                self.children.insert(cur, c);
            },
            None => {},
        }
        self.parents.insert(n, cur);
        self.layers.push(ZLayer { z, custom_z, parent_id: cur, quads: Vec::new() });
        self.current_layer = n;
        self.children.insert(n, Vec::new());
        proof {
            let ch = child_lists_contents(self.children);
            assert forall|k: usize| k < self.layers@.len() implies is_child_list(
                self.layers@,
                k,
                #[trigger] ch[k],
            ) by {
                if k == n {
                    assert forall|i: int|
                        0 < i < self.layers@.len() && #[trigger] self.layers@[i].parent_id
                            == k implies ch[k].contains(i as usize) by {
                        assert(old_layers[i].parent_id < i);
                    }
                } else {
                    assert(self.layers@[n as int].parent_id == cur);
                    assert forall|i: int|
                        0 < i < self.layers@.len() && #[trigger] self.layers@[i].parent_id
                            == k implies ch[k].contains(i as usize) by {
                        let old_ch = child_lists_contents(old(self).children);
                        if k == cur {
                            assert(ch[k] == old_ch[k].push(n));
                        } else {
                            assert(ch[k] == old_ch[k]);
                        }
                        if i == n {
                            assert(ch[k][ch[k].len() - 1] == n);
                        } else {
                            assert(old_layers[i].parent_id == k);
                            assert(old_ch[k].contains(i as usize));
                            let w = choose|w: int| 0 <= w < old_ch[k].len() && old_ch[k][w] == i as usize;
                            assert(ch[k][w] == i as usize);
                        }
                    }
                }
            }
        }
    }

    /// Makes the parent of the current layer current.
    pub fn pop_stack(&mut self)
        requires
            old(self).wf(),
            old(self).layers().len() > 0,
        ensures
            final(self).child_map() == old(self).child_map(),
            final(self).wf(),
            final(self).layers() == old(self).layers(),
            final(self).current() == old(self).layers()[old(self).current() as int].parent_id,
    {
        let parent = self.layers[self.current_layer].parent_id;
        self.current_layer = parent;
    }

    /// Stores the computed depths of layer `index`.
    pub fn set_depths(&mut self, index: usize, z: Z, custom_z: Z)
        requires
            old(self).wf(),
            index < old(self).layers().len(),
        ensures
            final(self).child_map() == old(self).child_map(),
            final(self).wf(),
            final(self).current() == old(self).current(),
            final(self).layers().len() == old(self).layers().len(),
            forall|i: int|
                0 <= i < old(self).layers().len() && i != index ==> #[trigger] final(self).layers()[i]
                    == old(self).layers()[i],
            final(self).layers()[index as int].z == z,
            final(self).layers()[index as int].custom_z == custom_z,
            final(self).layers()[index as int].parent_id == old(self).layers()[index as int].parent_id,
            final(self).layers()[index as int].quads == old(self).layers()[index as int].quads,
    {
        self.layers[index].z = z;
        self.layers[index].custom_z = custom_z;
    }

    /// Puts `quads` in place of the quads of layer `index` and hands back the
    /// ones it held.
    pub fn replace_quads(&mut self, index: usize, quads: Vec<Q>) -> (taken: Vec<Q>)
        requires
            old(self).wf(),
            index < old(self).layers().len(),
        ensures
            final(self).child_map() == old(self).child_map(),
            final(self).wf(),
            final(self).current() == old(self).current(),
            taken@ == old(self).layers()[index as int].quads@,
            layer_quads_replaced(old(self).layers(), final(self).layers(), index as int, quads@),
    {
        let mut quads = quads;
        std::mem::swap(&mut quads, &mut self.layers[index].quads);
        quads
    }
    /// The order in which the depth pass visits the layers: depth first from
    /// the root, the most recently created child first.
    pub open spec fn visit_order(self) -> Seq<usize> {
        subtree_order(self.child_map(), self.layers().len() as int, 0)
    }

    /// The layers in the order the depth pass visits them, each with its
    /// parent and base depth. Every layer is visited exactly once, the root
    /// first, and every other layer after its parent.
    pub fn resolve_order(&self) -> (visits: Vec<LayerVisit>)
        requires
            self.wf(),
            self.layers().len() > 0,
        ensures
            visits.len() == self.layers().len(),
            visit_ids(visits@) == self.visit_order(),
            forall|j: int|
                0 <= j < visits.len() ==> #[trigger] visits[j].layer_id < self.layers().len()
                    && visits[j].parent_id == self.layers()[visits[j].layer_id as int].parent_id
                    && visits[j].depth == visits[j].layer_id,
            visits[0].layer_id == 0,
            visit_ids(visits@).no_duplicates(),
            forall|i: usize| i < self.layers().len() ==> #[trigger] visit_ids(visits@).contains(i),
            forall|j: int|
                0 < j < visits.len() ==> visit_ids(visits@).take(j).contains(#[trigger] visits[j].parent_id),
    {
        let n = self.layers.len();
        let ghost ch = child_lists_contents(self.children);
        let ghost total = subtree_order(ch, n as int, 0);
        let ghost layers = self.layers@;
        let ghost mut ids: Seq<usize> = Seq::empty();
        let mut visits: Vec<LayerVisit> = Vec::new();
        let mut stack: Vec<usize> = Vec::new();
        stack.push(0);
        proof {
            assert(stack@.drop_last() =~= Seq::<usize>::empty());
            assert(stack_order(ch, n as int, stack@.drop_last()) =~= Seq::<usize>::empty());
            assert(stack_order(ch, n as int, stack@) =~= total);
        }
        while stack.len() > 0
            invariant
                self.wf(),
                n == self.layers@.len(),
                n > 0,
                layers == self.layers@,
                ch == child_lists_contents(self.children),
                total == subtree_order(ch, n as int, 0),
                ids + stack_order(ch, n as int, stack@) == total,
                visits.len() == ids.len(),
                forall|j: int|
                    0 <= j < visits.len() ==> #[trigger] visits@[j].layer_id == ids[j]
                        && visits@[j].parent_id == layers[ids[j] as int].parent_id
                        && visits@[j].depth == ids[j],
                ids.no_duplicates(),
                stack@.no_duplicates(),
                ids.disjoint(stack@),
                forall|j: int| 0 <= j < ids.len() ==> #[trigger] ids[j] < n,
                forall|j: int| 0 <= j < stack.len() ==> #[trigger] stack@[j] < n,
                forall|i: int|
                    0 < i < n ==> (ids.contains(i as usize) || stack@.contains(i as usize))
                        == ids.contains(#[trigger] layers[i].parent_id),
                ids.contains(0) || stack@.contains(0),
                ids.len() == 0 ==> stack@ == seq![0usize],
                ids.len() > 0 ==> ids[0] == 0,
                forall|j: int|
                    0 < j < ids.len() ==> ids.take(j).contains(#[trigger] layers[ids[j] as int].parent_id),
            decreases total.len() - ids.len(),
        {
            proof {
                lemma_stack_order_nonempty(ch, n as int, stack@);
            }
            let ghost old_stack = stack@;
            let ghost old_ids = ids;
            let layer_id = stack.pop().unwrap();
            let parent_id = self.layers[layer_id].parent_id;
            let children = match self.children.get_cloned(layer_id) {
                Some(c) => c,
                None => Vec::new(),
            };
            let ghost cs = children@;
            let mut pending = children;
            stack.append(&mut pending);
            let depth = if layer_id > parent_id {
                layer_id
            } else {
                parent_id
            };
            visits.push(LayerVisit { layer_id, parent_id, depth });
            proof {
                let rest = old_stack.drop_last();
                assert(rest == old_stack.drop_last());
                assert(is_child_list(layers, layer_id, cs));
                assert forall|a: int| 0 <= a < cs.len() implies layer_id < #[trigger] cs[a] < n by {
                    assert(layers[cs[a] as int].parent_id == layer_id);
                }
                lemma_children_order_is_stack_order(ch, n as int, layer_id as int, cs);
                lemma_stack_order_append(ch, n as int, rest, cs);
                assert(stack@ == rest + cs);
                ids = ids.push(layer_id);
                assert(ids + stack_order(ch, n as int, stack@) =~= old_ids + stack_order(ch, n as int, old_stack));
                let x = layer_id;
                assert(old_stack.contains(x)) by {
                    assert(old_stack[old_stack.len() - 1] == x);
                }
                assert(!old_ids.contains(x));
                assert(!rest.contains(x)) by {
                    if rest.contains(x) {
                        let w = choose|w: int| 0 <= w < rest.len() && rest[w] == x;
                        assert(old_stack[w] == x && old_stack[old_stack.len() - 1] == x);
                    }
                }
                assert forall|a: int| 0 <= a < cs.len() implies !old_ids.contains(#[trigger] cs[a])
                    && !old_stack.contains(cs[a]) by {
                    let c = cs[a];
                    assert(layers[c as int].parent_id == x);
                    assert(0 < c < n);
                }
                assert(cs.no_duplicates());
                assert forall|a: int, b: int|
                    0 <= a < stack@.len() && 0 <= b < stack@.len() && a != b implies stack@[a]
                    != stack@[b] by {
                    if a < rest.len() && b >= rest.len() {
                        assert(!old_stack.contains(cs[b - rest.len()]));
                        assert(old_stack[a] == rest[a]);
                    } else if b < rest.len() && a >= rest.len() {
                        assert(!old_stack.contains(cs[a - rest.len()]));
                        assert(old_stack[b] == rest[b]);
                    } else if a < rest.len() && b < rest.len() {
                        assert(old_stack[a] == rest[a] && old_stack[b] == rest[b]);
                    }
                }
                assert forall|a: int, b: int|
                    0 <= a < ids.len() && 0 <= b < stack@.len() implies ids[a] != stack@[b] by {
                    if b < rest.len() {
                        assert(stack@[b] == old_stack[b]);
                        if a == ids.len() - 1 {
                            assert(!rest.contains(x));
                            assert(rest[b] == stack@[b]);
                        } else {
                            assert(ids[a] == old_ids[a]);
                        }
                    } else {
                        let c = cs[b - rest.len()];
                        assert(stack@[b] == c);
                        assert(!old_ids.contains(c));
                        assert(layers[c as int].parent_id == x);
                        if a < ids.len() - 1 {
                            assert(ids[a] == old_ids[a]);
                        }
                    }
                }
                assert(ids.no_duplicates()) by {
                    assert forall|a: int, b: int|
                        0 <= a < ids.len() && 0 <= b < ids.len() && a != b implies ids[a] != ids[b] by {
                        if a < old_ids.len() && b < old_ids.len() {
                        } else if a < old_ids.len() {
                            assert(old_ids[a] == ids[a]);
                        } else {
                            assert(old_ids[b] == ids[b]);
                        }
                    }
                }
                assert forall|i: int|
                    0 < i < n implies (ids.contains(i as usize) || stack@.contains(i as usize))
                        == ids.contains(#[trigger] layers[i].parent_id) by {
                    let iu = i as usize;
                    let p = layers[i].parent_id;
                    vstd::seq_lib::lemma_seq_contains_after_push(old_ids, x, iu);
                    vstd::seq_lib::lemma_seq_contains_after_push(old_ids, x, p);
                    assert(old_stack.contains(iu) == (rest.contains(iu) || iu == x)) by {
                        if old_stack.contains(iu) && iu != x {
                            let w = choose|w: int| 0 <= w < old_stack.len() && old_stack[w] == iu;
                            assert(w < rest.len());
                            assert(rest[w] == iu);
                        }
                        if rest.contains(iu) {
                            let w = choose|w: int| 0 <= w < rest.len() && rest[w] == iu;
                            assert(old_stack[w] == iu);
                        }
                    }
                    assert(stack@.contains(iu) == (rest.contains(iu) || cs.contains(iu))) by {
                        if stack@.contains(iu) {
                            let w = choose|w: int| 0 <= w < stack@.len() && stack@[w] == iu;
                            if w < rest.len() {
                                assert(rest[w] == iu);
                            } else {
                                assert(cs[w - rest.len()] == iu);
                            }
                        }
                        if rest.contains(iu) {
                            let w = choose|w: int| 0 <= w < rest.len() && rest[w] == iu;
                            assert(stack@[w] == iu);
                        }
                        if cs.contains(iu) {
                            let w = choose|w: int| 0 <= w < cs.len() && cs[w] == iu;
                            assert(stack@[rest.len() + w] == iu);
                        }
                    }
                    assert(cs.contains(iu) == (p == x)) by {
                        if cs.contains(iu) {
                            let w = choose|w: int| 0 <= w < cs.len() && cs[w] == iu;
                            assert(layers[cs[w] as int].parent_id == x);
                        }
                    }
                }
                assert(ids.contains(0) || stack@.contains(0)) by {
                    if !old_ids.contains(0) {
                        assert(old_stack.contains(0));
                        if x == 0 {
                            assert(ids[ids.len() - 1] == 0);
                        } else {
                            let w = choose|w: int| 0 <= w < old_stack.len() && old_stack[w] == 0;
                            assert(w < rest.len());
                            assert(stack@[w] == 0);
                        }
                    } else {
                        let w = choose|w: int| 0 <= w < old_ids.len() && old_ids[w] == 0;
                        assert(ids[w] == 0);
                    }
                }
                if old_ids.len() == 0 {
                    assert(x == 0);
                } else {
                    assert(ids[0] == old_ids[0]);
                    assert(x != 0) by {
                        assert(old_ids[0] == 0);
                        assert(old_ids.contains(0));
                    }
                }
                assert forall|j: int|
                    0 < j < ids.len() implies ids.take(j).contains(#[trigger] layers[ids[j] as int].parent_id) by {
                    if j < old_ids.len() {
                        assert(ids.take(j) =~= old_ids.take(j));
                        assert(ids[j] == old_ids[j]);
                    } else {
                        assert(ids.take(j) =~= old_ids);
                        assert(0 < x < n);
                        assert(ids[j] == x);
                    }
                }
            }
        }
        proof {
            assert(stack_order(ch, n as int, stack@) =~= Seq::<usize>::empty());
            assert(ids =~= total);
            assert forall|i: int|
                0 < i < layers.len() && ids.contains(#[trigger] layers[i].parent_id) implies ids.contains(
                i as usize,
            ) by {
                assert(!stack@.contains(i as usize));
            }
            assert(ids.contains(0)) by {
                assert(!stack@.contains(0));
            }
            assert forall|i: usize| i < n implies ids.contains(i) by {
                lemma_all_reached(layers, ids, i as int);
            }
            lemma_covering_len(ids, n);
            assert(visit_ids(visits@) =~= ids);
            assert forall|j: int|
                0 < j < visits.len() implies visit_ids(visits@).take(j).contains(#[trigger] visits@[j].parent_id) by {
                assert(visits@[j].parent_id == layers[ids[j] as int].parent_id);
            }
        }
        visits
    }
}

impl<Q, Z> Default for ExtractedQuads<Q, Z> {
    fn default() -> (quads: Self)
        ensures
            quads.wf(),
            quads.layers() == Seq::<ZLayer<Q, Z>>::empty(),
            quads.current() == 0,
    {
        Self::new()
    }
}

} // verus!
