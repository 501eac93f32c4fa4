//! Sets of execution contexts, each known by its identity, that an instance
//! keeps alive.
use vstd::prelude::*;

verus! {

/// The identity of an execution context: two handles name the same context
/// exactly when their identities are equal.
pub type ContextId = u64;

/// A set of context identities without repeats, in order of first insertion.
#[derive(Clone, Debug)]
pub struct ContextSet {
    ids: Vec<ContextId>,
}

impl View for ContextSet {
    type V = Set<ContextId>;

    closed spec fn view(&self) -> Set<ContextId> {
        self.ids@.to_set()
    }
}

impl ContextSet {
    /// No identity is held twice.
    pub closed spec fn wf(&self) -> bool {
        self.ids@.no_duplicates()
    }

    /// The identities, in order of first insertion.
    pub closed spec fn id_seq(&self) -> Seq<ContextId> {
        self.ids@
    }

    /// The empty set.
    pub fn new() -> (r: ContextSet)
        ensures
            r.wf(),
            r@ == Set::<ContextId>::empty(),
    {
        let r = ContextSet { ids: Vec::new() };
        assert(r@ =~= Set::<ContextId>::empty());
        r
    }

    /// Whether `id` is in the set.
    pub fn contains(&self, id: ContextId) -> (r: bool)
        ensures
            r == self@.contains(id),
    {
        let mut i: usize = 0;
        while i < self.ids.len()
            invariant
                i <= self.ids@.len(),
                forall|j: int| 0 <= j < i ==> self.ids@[j] != id,
            decreases self.ids@.len() - i,
        {
            if self.ids[i] == id {
                return true;
            }
            i = i + 1;
        }
        false
    }

    /// Adds `id`; an identity already present is not added again.
    pub fn insert(&mut self, id: ContextId)
        requires
            old(self).wf(),
        ensures
            final(self).wf(),
            final(self)@ == old(self)@.insert(id),
    {
        if !self.contains(id) {
            proof {
                old(self).ids@.lemma_push_to_set_commute(id);
            }
            self.ids.push(id);
        } else {
            assert(old(self)@.insert(id) =~= old(self)@);
        }
    }

    /// Adds every identity of `other`.
    pub fn extend(&mut self, other: &ContextSet)
        requires
            old(self).wf(),
        ensures
            final(self).wf(),
            final(self)@ == old(self)@.union(other@),
    {
        let mut i: usize = 0;
        while i < other.ids.len()
            invariant
                self.wf(),
                i <= other.ids@.len(),
                self@ == old(self)@.union(other.ids@.subrange(0, i as int).to_set()),
            decreases other.ids@.len() - i,
        {
            self.insert(other.ids[i]);
            proof {
                let prefix = other.ids@.subrange(0, i as int);
                assert(other.ids@.subrange(0, i + 1) =~= prefix.push(other.ids@[i as int]));
                prefix.lemma_push_to_set_commute(other.ids@[i as int]);
            }
            assert(self@ =~= old(self)@.union(other.ids@.subrange(0, i + 1).to_set()));
            i = i + 1;
        }
        assert(other.ids@.subrange(0, other.ids@.len() as int) =~= other.ids@);
    }

    /// The identities, in order of first insertion.
    pub fn ids(&self) -> (r: &Vec<ContextId>)
        ensures
            r@ == self.id_seq(),
            r@.to_set() == self@,
    {
        &self.ids
    }
}

} // verus!
