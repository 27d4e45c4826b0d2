//! The set of coordinates the walk has already entered.
//!
//! The closure walk has no natural guard against a descriptor graph that
//! contains a cycle — two parents referencing each other, or a diamond
//! that keeps re-entering the same descriptor. Consulting this set before
//! recursing guarantees termination: a coordinate
//! (group id, artifact id, version) is entered at most once per walk.

use vstd::prelude::*;

verus! {

/// Whether some entry of the list views to the coordinate triple `c`.
pub open spec fn coord_seq_contains(
    s: Seq<(String, String, String)>,
    c: (Seq<char>, Seq<char>, Seq<char>),
) -> bool {
    exists|i: int| 0 <= i < s.len() && (s[i].0@, s[i].1@, s[i].2@) == c
}

/// The coordinates already visited during one walk.
#[derive(Debug)]
pub struct VisitedSet {
    entries: Vec<(String, String, String)>,
}

impl View for VisitedSet {
    type V = Set<(Seq<char>, Seq<char>, Seq<char>)>;

    closed spec fn view(&self) -> Set<(Seq<char>, Seq<char>, Seq<char>)> {
        Set::new(|c: (Seq<char>, Seq<char>, Seq<char>)| coord_seq_contains(self.entries@, c))
    }
}

impl VisitedSet {
    /// An empty visited set: a fresh walk.
    pub fn new() -> (r: VisitedSet)
        ensures
            r@ == Set::<(Seq<char>, Seq<char>, Seq<char>)>::empty(),
    {
        let r = VisitedSet { entries: Vec::new() };
        proof {
            assert(r@ =~= Set::<(Seq<char>, Seq<char>, Seq<char>)>::empty());
        }
        r
    }

    /// Records a coordinate and says whether this is its first visit.
    /// After the call the coordinate is in the set either way, so a second
    /// call on the same coordinate always answers `false`.
    pub fn first_visit(&mut self, group_id: &String, artifact_id: &String, version: &String) -> (r:
        bool)
        ensures
            r == !old(self)@.contains((group_id@, artifact_id@, version@)),
            final(self)@ == old(self)@.insert((group_id@, artifact_id@, version@)),
    {
        let ghost key = (group_id@, artifact_id@, version@);
        let n = self.entries.len();
        let mut i: usize = 0;
        while i < n
            invariant
                0 <= i <= n,
                n == self.entries@.len(),
                key == (group_id@, artifact_id@, version@),
                forall|j: int|
                    0 <= j < i ==> (
                    self.entries@[j].0@,
                    self.entries@[j].1@,
                    self.entries@[j].2@,
                    ) != key,
            decreases n - i,
        {
            if self.entries[i].0.eq(group_id) && self.entries[i].1.eq(artifact_id)
                && self.entries[i].2.eq(version) {
                proof {
                    assert((self.entries@[i as int].0@, self.entries@[i as int].1@, self.entries@[
                        i as int].2@) == key);
                    assert(self@.contains(key));
                    assert(self@ =~= self@.insert(key));
                }
                return false;
            }
            i = i + 1;
        }
        proof {
            assert(!coord_seq_contains(self.entries@, key));
        }
        let ghost s_old = self.entries@;
        self.entries.push((group_id.clone(), artifact_id.clone(), version.clone()));
        proof {
            assert forall|c: (Seq<char>, Seq<char>, Seq<char>)|
                coord_seq_contains(self.entries@, c) <==> (coord_seq_contains(s_old, c) || c
                    == key) by {
                if coord_seq_contains(self.entries@, c) {
                    let i = choose|i: int|
                        0 <= i < self.entries@.len() && (
                        self.entries@[i].0@,
                        self.entries@[i].1@,
                        self.entries@[i].2@,
                        ) == c;
                    if i < s_old.len() {
                        assert((s_old[i].0@, s_old[i].1@, s_old[i].2@) == c);
                    } else {
                        assert(c == key);
                    }
                }
                if coord_seq_contains(s_old, c) {
                    let i = choose|i: int|
                        0 <= i < s_old.len() && (s_old[i].0@, s_old[i].1@, s_old[i].2@) == c;
                    assert((self.entries@[i].0@, self.entries@[i].1@, self.entries@[i].2@) == c);
                }
                if c == key {
                    assert((
                    self.entries@[s_old.len() as int].0@,
                    self.entries@[s_old.len() as int].1@,
                    self.entries@[s_old.len() as int].2@,
                    ) == c);
                }
            }
            assert(self@ =~= old(self)@.insert(key));
        }
        true
    }
}

} // verus!
