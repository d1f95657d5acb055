//! The association of outstanding request ids with the methods of the requests,
//! which a response needs because response objects do not carry a method.

use vstd::prelude::*;

use crate::method::LSPSMethod;
use crate::msgs::RequestId;

verus! {

/// The map that a sequence of (id, method) pairs stands for: a later pair
/// overrides an earlier one with the same id.
pub open spec fn pairs_to_map(s: Seq<(RequestId, LSPSMethod)>) -> Map<Seq<char>, LSPSMethod>
    decreases s.len(),
{
    if s.len() == 0 {
        Map::empty()
    } else {
        pairs_to_map(s.drop_last()).insert(s.last().0@, s.last().1)
    }
}

/// No id occurs twice in the sequence.
pub open spec fn ids_distinct(s: Seq<(RequestId, LSPSMethod)>) -> bool {
    forall|i: int, j: int| 0 <= i < j < s.len() ==> (#[trigger] s[i]).0@ != (#[trigger] s[j]).0@
}

/// The keys of the map are the ids of the sequence.
proof fn lemma_pairs_to_map_dom(s: Seq<(RequestId, LSPSMethod)>, k: Seq<char>)
    ensures
        pairs_to_map(s).contains_key(k) <==> exists|i: int| 0 <= i < s.len() && (#[trigger] s[i]).0@ == k,
    decreases s.len(),
{
    if s.len() > 0 {
        lemma_pairs_to_map_dom(s.drop_last(), k);
        if pairs_to_map(s.drop_last()).contains_key(k) {
            let i = choose|i: int| 0 <= i < s.drop_last().len() && (#[trigger] s.drop_last()[i]).0@ == k;
            assert(s[i] == s.drop_last()[i]);
        }
        if exists|i: int| 0 <= i < s.len() && (#[trigger] s[i]).0@ == k {
            let i = choose|i: int| 0 <= i < s.len() && (#[trigger] s[i]).0@ == k;
            if i < s.len() - 1 {
                assert(s.drop_last()[i] == s[i]);
            }
        }
    }
}

/// With distinct ids, the map gives each id the method paired with it.
proof fn lemma_pairs_to_map_value(s: Seq<(RequestId, LSPSMethod)>, i: int)
    requires
        ids_distinct(s),
        0 <= i < s.len(),
    ensures
        pairs_to_map(s).contains_key(s[i].0@),
        pairs_to_map(s)[s[i].0@] == s[i].1,
    decreases s.len(),
{
    if i < s.len() - 1 {
        assert(s.drop_last()[i] == s[i]);
        assert(ids_distinct(s.drop_last())) by {
            assert forall|a: int, b: int| 0 <= a < b < s.drop_last().len() implies
                (#[trigger] s.drop_last()[a]).0@ != (#[trigger] s.drop_last()[b]).0@ by {
                assert(s.drop_last()[a] == s[a]);
                assert(s.drop_last()[b] == s[b]);
            }
        }
        lemma_pairs_to_map_value(s.drop_last(), i);
        assert(s[i].0@ != s[s.len() - 1].0@);
    }
}

/// Outstanding request ids with the methods of their requests.
pub struct RequestIdMap {
    entries: Vec<(RequestId, LSPSMethod)>,
}

impl View for RequestIdMap {
    type V = Map<Seq<char>, LSPSMethod>;

    closed spec fn view(&self) -> Map<Seq<char>, LSPSMethod> {
        pairs_to_map(self.entries@)
    }
}

impl RequestIdMap {
    /// The invariant of the map: no id is stored twice.
    #[verifier::type_invariant]
    closed spec fn well_formed(&self) -> bool {
        ids_distinct(self.entries@)
    }

    /// An empty map.
    pub fn new() -> (map: RequestIdMap)
        ensures
            map@ == Map::<Seq<char>, LSPSMethod>::empty(),
    {
        RequestIdMap { entries: Vec::new() }
    }

    /// The number of ids in the map.
    pub fn len(&self) -> (n: usize)
        ensures
            self@.dom().finite(),
            n == self@.len(),
    {
        proof {
            use_type_invariant(self);
            lemma_len_pairs(self.entries@);
        }
        self.entries.len()
    }

    /// The position of `id` in the entries, if it is there.
    fn find(&self, id: &RequestId) -> (pos: Option<usize>)
        ensures
            match pos {
                Some(i) => i < self.entries@.len() && self.entries@[i as int].0@ == id@,
                None => !self@.contains_key(id@),
            },
    {
        let mut i: usize = 0;
        while i < self.entries.len()
            invariant
                0 <= i <= self.entries@.len(),
                forall|j: int| 0 <= j < i ==> (#[trigger] self.entries@[j]).0@ != id@,
            decreases self.entries@.len() - i,
        {
            if self.entries[i].0.0 == id.0 {
                return Some(i);
            }
            i = i + 1;
        }
        proof {
            lemma_pairs_to_map_dom(self.entries@, id@);
        }
        None
    }

    /// Returns the method stored for `id`.
    pub fn get(&self, id: &RequestId) -> (res: Option<LSPSMethod>)
        ensures
            res == (if self@.contains_key(id@) { Some(self@[id@]) } else { None }),
    {
        proof {
            use_type_invariant(self);
        }
        match self.find(id) {
            Some(i) => {
                proof {
                    lemma_pairs_to_map_value(self.entries@, i as int);
                }
                Some(self.entries[i].1)
            },
            None => None,
        }
    }

    /// Stores `method` for `id`, and returns the method stored for it before.
    pub fn insert(&mut self, id: RequestId, method: LSPSMethod) -> (previous: Option<LSPSMethod>)
        ensures
            final(self)@ == old(self)@.insert(id@, method),
            previous == (if old(self)@.contains_key(id@) { Some(old(self)@[id@]) } else { None }),
    {
        let previous = self.remove(&id);
        proof {
            use_type_invariant(&*self);
        }
        let mut entries = Vec::new();
        std::mem::swap(&mut entries, &mut self.entries);
        let ghost before = entries@;
        proof {
            lemma_pairs_to_map_dom(before, id@);
        }
        entries.push((id, method));
        assert(entries@.drop_last() =~= before);
        assert(ids_distinct(entries@)) by {
            assert forall|a: int, b: int| 0 <= a < b < entries@.len() implies
                (#[trigger] entries@[a]).0@ != (#[trigger] entries@[b]).0@ by {
                if b == entries@.len() - 1 {
                    assert(entries@[a] == before[a]);
                }
            }
        }
        self.entries = entries;
        assert(self@ =~= old(self)@.insert(id@, method));
        previous
    }

    /// Removes `id`, and returns the method that was stored for it.
    pub fn remove(&mut self, id: &RequestId) -> (removed: Option<LSPSMethod>)
        ensures
            final(self)@ == old(self)@.remove(id@),
            removed == (if old(self)@.contains_key(id@) { Some(old(self)@[id@]) } else { None }),
    {
        proof {
            use_type_invariant(&*self);
        }
        match self.find(id) {
            None => {
                assert(self@ =~= old(self)@.remove(id@));
                None
            },
            Some(i) => {
                let mut entries = Vec::new();
                std::mem::swap(&mut entries, &mut self.entries);
                let ghost before = entries@;
                proof {
                    lemma_pairs_to_map_value(before, i as int);
                }
                let (_, method) = entries.remove(i);
                let ghost after = entries@;
                assert(after =~= before.remove(i as int));
                assert(ids_distinct(after)) by {
                    assert forall|a: int, b: int| 0 <= a < b < after.len() implies
                        (#[trigger] after[a]).0@ != (#[trigger] after[b]).0@ by {
                        let a0 = if a < i { a } else { a + 1 };
                        let b0 = if b < i { b } else { b + 1 };
                        assert(after[a] == before[a0]);
                        assert(after[b] == before[b0]);
                    }
                }
                assert forall|k: Seq<char>| #[trigger] pairs_to_map(after).contains_key(k)
                    == old(self)@.remove(id@).contains_key(k) by {
                    lemma_pairs_to_map_dom(after, k);
                    lemma_pairs_to_map_dom(before, k);
                    if exists|j: int| 0 <= j < before.len() && (#[trigger] before[j]).0@ == k {
                        let j = choose|j: int| 0 <= j < before.len() && (#[trigger] before[j]).0@ == k;
                        if j < i {
                            assert(after[j] == before[j]);
                        } else if j > i {
                            assert(after[j - 1] == before[j]);
                        }
                    }
                    if exists|j: int| 0 <= j < after.len() && (#[trigger] after[j]).0@ == k {
                        let j = choose|j: int| 0 <= j < after.len() && (#[trigger] after[j]).0@ == k;
                        let j0 = if j < i { j } else { j + 1 };
                        assert(after[j] == before[j0]);
                    }
                }
                assert forall|k: Seq<char>| #[trigger] pairs_to_map(after).contains_key(k)
                    implies pairs_to_map(after)[k] == old(self)@[k] by {
                    lemma_pairs_to_map_dom(after, k);
                    let j = choose|j: int| 0 <= j < after.len() && (#[trigger] after[j]).0@ == k;
                    let j0 = if j < i { j } else { j + 1 };
                    assert(after[j] == before[j0]);
                    lemma_pairs_to_map_value(after, j);
                    lemma_pairs_to_map_value(before, j0);
                }
                self.entries = entries;
                assert(self@ =~= old(self)@.remove(id@));
                Some(method)
            },
        }
    }
}

/// With distinct ids, the map has as many keys as the sequence has pairs.
proof fn lemma_len_pairs(s: Seq<(RequestId, LSPSMethod)>)
    requires
        ids_distinct(s),
    ensures
        pairs_to_map(s).dom().finite(),
        pairs_to_map(s).len() == s.len(),
    decreases s.len(),
{
    if s.len() > 0 {
        let t = s.drop_last();
        assert(ids_distinct(t)) by {
            assert forall|a: int, b: int| 0 <= a < b < t.len() implies
                (#[trigger] t[a]).0@ != (#[trigger] t[b]).0@ by {
                assert(t[a] == s[a]);
                assert(t[b] == s[b]);
            }
        }
        lemma_len_pairs(t);
        lemma_pairs_to_map_dom(t, s.last().0@);
        if pairs_to_map(t).contains_key(s.last().0@) {
            let j = choose|j: int| 0 <= j < t.len() && (#[trigger] t[j]).0@ == s.last().0@;
            assert(t[j] == s[j]);
        }
    }
}

} // verus!
