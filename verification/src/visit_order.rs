use vstd::prelude::*;

verus! {

/// Depth-first order of the subtree of layer `k` under the child lists `ch`
/// of a tree of `n` layers: `k` itself, then the subtrees of its children,
/// the last child first.
pub open spec fn subtree_order(ch: Map<usize, Seq<usize>>, n: int, k: int) -> Seq<usize>
    decreases n - k, 1int, 0int,
{
    if 0 <= k < n {
        seq![k as usize] + children_order(ch, n, k, ch[k as usize])
    } else {
        seq![k as usize]
    }
}

/// The subtrees of the children `cs` of layer `k`, the last child first.
pub open spec fn children_order(ch: Map<usize, Seq<usize>>, n: int, k: int, cs: Seq<usize>) -> Seq<usize>
    decreases n - k, 0int, cs.len(),
{
    if cs.len() == 0 {
        Seq::empty()
    } else {
        let c = cs.last();
        let first = if k < c < n {
            subtree_order(ch, n, c as int)
        } else {
            seq![c]
        };
        first + children_order(ch, n, k, cs.drop_last())
    }
}

/// The order in which a stack of pending layers is visited: the subtree of
/// the top (last) entry first.
pub open spec fn stack_order(ch: Map<usize, Seq<usize>>, n: int, stack: Seq<usize>) -> Seq<usize>
    decreases stack.len(),
{
    if stack.len() == 0 {
        Seq::empty()
    } else {
        subtree_order(ch, n, stack.last() as int) + stack_order(ch, n, stack.drop_last())
    }
}

pub proof fn lemma_children_order_is_stack_order(
    ch: Map<usize, Seq<usize>>,
    n: int,
    k: int,
    cs: Seq<usize>,
)
    requires
        forall|a: int| 0 <= a < cs.len() ==> k < #[trigger] cs[a] < n,
    ensures
        children_order(ch, n, k, cs) == stack_order(ch, n, cs),
    decreases cs.len(),
{
    if cs.len() > 0 {
        assert(k < cs[cs.len() - 1] < n);
        lemma_children_order_is_stack_order(ch, n, k, cs.drop_last());
    }
}

pub proof fn lemma_stack_order_append(ch: Map<usize, Seq<usize>>, n: int, a: Seq<usize>, b: Seq<usize>)
    ensures
        stack_order(ch, n, a + b) == stack_order(ch, n, b) + stack_order(ch, n, a),
    decreases b.len(),
{
    if b.len() == 0 {
        assert(a + b =~= a);
        assert(stack_order(ch, n, b) =~= Seq::<usize>::empty());
        assert(stack_order(ch, n, a + b) =~= stack_order(ch, n, b) + stack_order(ch, n, a));
    } else {
        assert((a + b).drop_last() =~= a + b.drop_last());
        assert((a + b).last() == b.last());
        lemma_stack_order_append(ch, n, a, b.drop_last());
        assert(stack_order(ch, n, a + b) =~= stack_order(ch, n, b) + stack_order(ch, n, a));
    }
}

pub proof fn lemma_stack_order_nonempty(ch: Map<usize, Seq<usize>>, n: int, stack: Seq<usize>)
    requires
        stack.len() > 0,
    ensures
        stack_order(ch, n, stack).len() > 0,
{
    assert(subtree_order(ch, n, stack.last() as int).len() > 0);
}

/// The set of indices below `n` has `n` elements.
pub proof fn lemma_index_range_len(n: usize)
    ensures
        Set::new(|i: usize| i < n).finite(),
        Set::new(|i: usize| i < n).len() == n,
    decreases n,
{
    if n == 0 {
        assert(Set::new(|i: usize| i < n) =~= Set::<usize>::empty());
    } else {
        let m = (n - 1) as usize;
        lemma_index_range_len(m);
        assert(Set::new(|i: usize| i < m).insert(m) =~= Set::new(|i: usize| i < n));
    }
}

/// A sequence without repeats whose entries are exactly the indices below
/// `n` has length `n`.
pub proof fn lemma_covering_len(s: Seq<usize>, n: usize)
    requires
        s.no_duplicates(),
        forall|a: int| 0 <= a < s.len() ==> #[trigger] s[a] < n,
        forall|i: usize| i < n ==> s.contains(i),
    ensures
        s.len() == n,
{
    s.unique_seq_to_set();
    lemma_index_range_len(n);
    assert(s.to_set() =~= Set::new(|i: usize| i < n));
}

} // verus!
