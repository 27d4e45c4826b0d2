//! The two tables the walk threads through descriptors: the per-descriptor
//! property table and the walk-wide managed-versions table.
//!
//! Both are association lists with a `Map` view. Lookup takes the first
//! entry whose key matches. The property table's `insert` puts the new
//! entry in front, so a later insert shadows an earlier one; the
//! managed-versions table only ever inserts a pair that is not yet present,
//! so the first declaration of a coordinate pair wins for the whole walk.

use vstd::prelude::*;

verus! {

/// First-match lookup over key/value entries.
spec fn entry_lookup(s: Seq<(String, String)>, key: Seq<char>) -> Option<Seq<char>>
    decreases s.len(),
{
    if s.len() == 0 {
        None
    } else if s[0].0@ == key {
        Some(s[0].1@)
    } else {
        entry_lookup(s.subrange(1, s.len() as int), key)
    }
}

/// First-match lookup over coordinate-keyed entries
/// (group id, artifact id, version).
spec fn coord_lookup(
    s: Seq<(String, String, String)>,
    key: (Seq<char>, Seq<char>),
) -> Option<Seq<char>>
    decreases s.len(),
{
    if s.len() == 0 {
        None
    } else if s[0].0@ == key.0 && s[0].1@ == key.1 {
        Some(s[0].2@)
    } else {
        coord_lookup(s.subrange(1, s.len() as int), key)
    }
}

/// A descriptor-scoped mapping from property keys to their string values.
#[derive(Debug)]
pub struct PropertyTable {
    entries: Vec<(String, String)>,
}

impl View for PropertyTable {
    type V = Map<Seq<char>, Seq<char>>;

    closed spec fn view(&self) -> Map<Seq<char>, Seq<char>> {
        Map::new(
            |k: Seq<char>| entry_lookup(self.entries@, k) is Some,
            |k: Seq<char>| entry_lookup(self.entries@, k)->Some_0,
        )
    }
}

impl PropertyTable {
    /// An empty property table.
    pub fn new() -> (r: PropertyTable)
        ensures
            r@ == Map::<Seq<char>, Seq<char>>::empty(),
    {
        let r = PropertyTable { entries: Vec::new() };
        proof {
            assert(r@ =~= Map::<Seq<char>, Seq<char>>::empty());
        }
        r
    }

    /// Binds `key` to `value`; a previous binding of the same key is
    /// shadowed.
    pub fn insert(&mut self, key: String, value: String)
        ensures
            final(self)@ == old(self)@.insert(key@, value@),
    {
        let ghost s_old = self.entries@;
        self.entries.insert(0, (key, value));
        proof {
            assert(self.entries@.subrange(1, self.entries@.len() as int) =~= s_old);
            assert forall|k: Seq<char>|
                entry_lookup(self.entries@, k) == (if k == key@ {
                    Some(value@)
                } else {
                    entry_lookup(s_old, k)
                }) by {}
            assert(self@ =~= old(self)@.insert(key@, value@));
        }
    }

    /// The value bound to `key`, if any.
    pub fn get(&self, key: &String) -> (r: Option<String>)
        ensures
            match r {
                Some(v) => self@.contains_key(key@) && v@ == self@[key@],
                None => !self@.contains_key(key@),
            },
    {
        let n = self.entries.len();
        let mut i: usize = 0;
        proof {
            assert(self.entries@.subrange(0, n as int) =~= self.entries@);
        }
        while i < n
            invariant
                0 <= i <= n,
                n == self.entries@.len(),
                entry_lookup(self.entries@, key@) == entry_lookup(
                    self.entries@.subrange(i as int, n as int),
                    key@,
                ),
            decreases n - i,
        {
            let ghost tail = self.entries@.subrange(i as int, n as int);
            proof {
                assert(tail[0] == self.entries@[i as int]);
            }
            if self.entries[i].0.eq(key) {
                return Some(self.entries[i].1.clone());
            }
            proof {
                assert(tail.subrange(1, tail.len() as int) =~= self.entries@.subrange(
                    i + 1,
                    n as int,
                ));
            }
            i = i + 1;
        }
        proof {
            assert(self.entries@.subrange(n as int, n as int) =~= Seq::<(
                String,
                String,
            )>::empty());
        }
        None
    }
}

/// The walk-wide table of managed versions, keyed by the
/// (group id, artifact id) pair. Once a pair is inserted it is never
/// overwritten: the first declaration encountered during the walk wins.
#[derive(Debug)]
pub struct ManagedVersions {
    entries: Vec<(String, String, String)>,
}

impl View for ManagedVersions {
    type V = Map<(Seq<char>, Seq<char>), Seq<char>>;

    closed spec fn view(&self) -> Map<(Seq<char>, Seq<char>), Seq<char>> {
        Map::new(
            |k: (Seq<char>, Seq<char>)| coord_lookup(self.entries@, k) is Some,
            |k: (Seq<char>, Seq<char>)| coord_lookup(self.entries@, k)->Some_0,
        )
    }
}

proof fn lemma_coord_lookup_push(
    s: Seq<(String, String, String)>,
    p: (String, String, String),
    key: (Seq<char>, Seq<char>),
)
    ensures
        coord_lookup(s.push(p), key) == (match coord_lookup(s, key) {
            Some(v) => Some(v),
            None => if p.0@ == key.0 && p.1@ == key.1 {
                Some(p.2@)
            } else {
                None
            },
        }),
    decreases s.len(),
{
    if s.len() == 0 {
        assert(s.push(p)[0] == p);
        assert(s.push(p).subrange(1, 1) =~= Seq::<(String, String, String)>::empty());
        assert(coord_lookup(s, key) is None);
        if p.0@ == key.0 && p.1@ == key.1 {
            assert(coord_lookup(s.push(p), key) == Some(p.2@));
        } else {
            assert(coord_lookup(s.push(p).subrange(1, 1), key) is None);
            assert(coord_lookup(s.push(p), key) is None);
        }
    } else {
        let t = s.subrange(1, s.len() as int);
        lemma_coord_lookup_push(t, p, key);
        assert(s.push(p)[0] == s[0]);
        assert(s.push(p).subrange(1, s.len() as int + 1) =~= t.push(p));
        if s[0].0@ == key.0 && s[0].1@ == key.1 {
            assert(coord_lookup(s.push(p), key) == Some(s[0].2@));
            assert(coord_lookup(s, key) == Some(s[0].2@));
        } else {
            assert(coord_lookup(s.push(p), key) == coord_lookup(t.push(p), key));
            assert(coord_lookup(s, key) == coord_lookup(t, key));
        }
    }
}

impl ManagedVersions {
    /// An empty managed-versions table.
    pub fn new() -> (r: ManagedVersions)
        ensures
            r@ == Map::<(Seq<char>, Seq<char>), Seq<char>>::empty(),
    {
        let r = ManagedVersions { entries: Vec::new() };
        proof {
            assert(r@ =~= Map::<(Seq<char>, Seq<char>), Seq<char>>::empty());
        }
        r
    }

    /// The version stored for `(group_id, artifact_id)`, if any.
    pub fn get(&self, group_id: &String, artifact_id: &String) -> (r: Option<String>)
        ensures
            match r {
                Some(v) => self@.contains_key((group_id@, artifact_id@)) && v@ == self@[
                    (group_id@, artifact_id@)
                ],
                None => !self@.contains_key((group_id@, artifact_id@)),
            },
    {
        let ghost key = (group_id@, artifact_id@);
        let n = self.entries.len();
        let mut i: usize = 0;
        proof {
            assert(self.entries@.subrange(0, n as int) =~= self.entries@);
        }
        while i < n
            invariant
                0 <= i <= n,
                n == self.entries@.len(),
                coord_lookup(self.entries@, key) == coord_lookup(
                    self.entries@.subrange(i as int, n as int),
                    key,
                ),
                key == (group_id@, artifact_id@),
            decreases n - i,
        {
            let ghost tail = self.entries@.subrange(i as int, n as int);
            proof {
                assert(tail[0] == self.entries@[i as int]);
            }
            if self.entries[i].0.eq(group_id) && self.entries[i].1.eq(artifact_id) {
                return Some(self.entries[i].2.clone());
            }
            proof {
                assert(tail.subrange(1, tail.len() as int) =~= self.entries@.subrange(
                    i + 1,
                    n as int,
                ));
            }
            i = i + 1;
        }
        proof {
            assert(self.entries@.subrange(n as int, n as int) =~= Seq::<(
                String,
                String,
                String,
            )>::empty());
        }
        None
    }

    /// Records a managed version for a coordinate pair unless one is
    /// already recorded: the first declaration wins.
    pub fn insert_if_absent(&mut self, group_id: String, artifact_id: String, version: String)
        ensures
            final(self)@ == (if old(self)@.contains_key((group_id@, artifact_id@)) {
                old(self)@
            } else {
                old(self)@.insert((group_id@, artifact_id@), version@)
            }),
    {
        let present = match self.get(&group_id, &artifact_id) {
            Some(_) => true,
            None => false,
        };
        if !present {
            let ghost s_old = self.entries@;
            let ghost key = (group_id@, artifact_id@);
            let ghost ver = version@;
            self.entries.push((group_id, artifact_id, version));
            proof {
                assert forall|k: (Seq<char>, Seq<char>)|
                    coord_lookup(self.entries@, k) == (if k == key {
                        Some(ver)
                    } else {
                        coord_lookup(s_old, k)
                    }) by {
                    lemma_coord_lookup_push(s_old, self.entries@.last(), k);
                }
                assert(self@ =~= old(self)@.insert(key, ver));
            }
        }
    }
}

} // verus!
