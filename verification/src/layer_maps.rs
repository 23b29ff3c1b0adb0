use bevy::utils::HashMap;
use vstd::prelude::*;

verus! {

/// Child lists of the layer tree, keyed by the index of the parent layer.
///
/// The lists live in the engine's hash map (`bevy::utils::HashMap`, a
/// hashbrown map with a fixed aHash state) in a private field; the map is
/// read and written only through the methods below, and what it holds is
/// `child_lists_contents`.
#[verifier::external_body]
pub struct ChildLists {
    map: HashMap<usize, Vec<usize>>,
}

/// What a child-list map holds: the list stored under each key.
pub uninterp spec fn child_lists_contents(lists: ChildLists) -> Map<usize, Seq<usize>>;

impl ChildLists {
    /// `HashMap::default`: a map that holds no entry.
    #[verifier::external_body]
    pub(crate) fn new() -> (lists: Self)
        ensures
            child_lists_contents(lists).dom() == Set::<usize>::empty(),
    {
        ChildLists { map: HashMap::default() }
    }

    /// `HashMap::get` followed by `Option::cloned`: a copy of the list stored
    /// under `key`, or `None` when the key has no entry.
    #[verifier::external_body]
    pub(crate) fn get_cloned(&self, key: usize) -> (list: Option<Vec<usize>>)
        ensures
            child_lists_contents(*self).contains_key(key) <==> list is Some,
            list matches Some(l) ==> l@ == child_lists_contents(*self)[key],
    {
        self.map.get(&key).cloned()
    }

    /// `HashMap::insert`: stores `list` under `key`, replacing what was there.
    #[verifier::external_body]
    pub(crate) fn insert(&mut self, key: usize, list: Vec<usize>)
        ensures
            child_lists_contents(*final(self)) == child_lists_contents(*old(self)).insert(key, list@),
    {
        self.map.insert(key, list);
    }

    /// `HashMap::clear`: removes every entry.
    #[verifier::external_body]
    pub(crate) fn clear(&mut self)
        ensures
            child_lists_contents(*final(self)).dom() == Set::<usize>::empty(),
    {
        self.map.clear();
    }
}

/// Parent links of the layer tree, keyed by the index of the child layer,
/// kept in the engine's hash map like `ChildLists`.
#[verifier::external_body]
pub struct ParentLinks {
    map: HashMap<usize, usize>,
}

/// What a parent-link map holds: the parent index stored under each key.
pub uninterp spec fn parent_links_contents(links: ParentLinks) -> Map<usize, usize>;

impl ParentLinks {
    /// `HashMap::default`: a map that holds no entry.
    #[verifier::external_body]
    pub(crate) fn new() -> (links: Self)
        ensures
            parent_links_contents(links).dom() == Set::<usize>::empty(),
    {
        ParentLinks { map: HashMap::default() }
    }

    /// `HashMap::insert`: stores `parent` under `key`, replacing what was there.
    #[verifier::external_body]
    pub(crate) fn insert(&mut self, key: usize, parent: usize)
        ensures
            parent_links_contents(*final(self)) == parent_links_contents(*old(self)).insert(key, parent),
    {
        self.map.insert(key, parent);
    }

    /// `HashMap::clear`: removes every entry.
    #[verifier::external_body]
    pub(crate) fn clear(&mut self)
        ensures
            parent_links_contents(*final(self)).dom() == Set::<usize>::empty(),
    {
        self.map.clear();
    }
}

} // verus!
