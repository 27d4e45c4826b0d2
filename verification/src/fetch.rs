//! Outcome classification for a single artifact-file fetch.
//!
//! A fetch looks at the local cache first: a file already on disk is never
//! retrieved again. Only when the file is absent is the remote repository
//! consulted, and a remote "not found" is an ordinary, non-fatal outcome.

use vstd::prelude::*;

verus! {

/// What happened to one artifact file (a binary or a descriptor) when the
/// walk tried to make it locally available.
#[derive(Debug, Clone, Copy, PartialEq, Eq, Structural)]
pub enum FetchOutcome {
    /// The file was absent locally and was retrieved from the remote
    /// repository.
    Downloaded,
    /// The file was already in the local cache; nothing was retrieved.
    AlreadyPresent,
    /// The remote repository answered that it does not have the file.
    NotFound,
    /// The retrieval failed for any other reason (network fault or a
    /// non-success, non-not-found response).
    TransportError,
}

/// What the remote repository answered when asked for a file.
#[derive(Debug, Clone, Copy, PartialEq, Eq, Structural)]
pub enum RemoteAnswer {
    /// The repository served the file.
    Found,
    /// The repository answered that the file does not exist.
    Missing,
    /// The request failed or came back with some other non-success status.
    Failed,
}

/// The outcome of fetching one file, given whether it was already in the
/// local cache and, if it was not, what the remote answered.
pub open spec fn spec_fetch_outcome(already_present: bool, answer: RemoteAnswer) -> FetchOutcome {
    if already_present {
        FetchOutcome::AlreadyPresent
    } else {
        match answer {
            RemoteAnswer::Found => FetchOutcome::Downloaded,
            RemoteAnswer::Missing => FetchOutcome::NotFound,
            RemoteAnswer::Failed => FetchOutcome::TransportError,
        }
    }
}

/// Classifies one fetch attempt. A file already present locally is left
/// alone whatever the remote would have answered.
pub fn fetch_outcome(already_present: bool, answer: RemoteAnswer) -> (r: FetchOutcome)
    ensures
        r == spec_fetch_outcome(already_present, answer),
{
    if already_present {
        FetchOutcome::AlreadyPresent
    } else {
        match answer {
            RemoteAnswer::Found => FetchOutcome::Downloaded,
            RemoteAnswer::Missing => FetchOutcome::NotFound,
            RemoteAnswer::Failed => FetchOutcome::TransportError,
        }
    }
}

/// Whether the walk recurses into a descriptor after trying to fetch it:
/// exactly when the descriptor file is locally available afterwards. The
/// decision is a function of the descriptor fetch alone; the outcome of the
/// sibling binary fetch cannot influence it.
pub fn should_recurse(pom_outcome: FetchOutcome) -> (r: bool)
    ensures
        r == (pom_outcome == FetchOutcome::Downloaded || pom_outcome
            == FetchOutcome::AlreadyPresent),
{
    match pom_outcome {
        FetchOutcome::Downloaded => true,
        FetchOutcome::AlreadyPresent => true,
        FetchOutcome::NotFound => false,
        FetchOutcome::TransportError => false,
    }
}

/// One fetch step over a modelled cache: present files are left alone,
/// a file the remote serves is added, any other answer changes nothing.
pub open spec fn spec_fetch_step(
    present: Set<Seq<char>>,
    path: Seq<char>,
    answer: RemoteAnswer,
) -> (FetchOutcome, Set<Seq<char>>) {
    if present.contains(path) {
        (FetchOutcome::AlreadyPresent, present)
    } else {
        match answer {
            RemoteAnswer::Found => (FetchOutcome::Downloaded, present.insert(path)),
            RemoteAnswer::Missing => (FetchOutcome::NotFound, present),
            RemoteAnswer::Failed => (FetchOutcome::TransportError, present),
        }
    }
}

/// Whether some entry of a path list views to `p`.
pub open spec fn str_seq_contains(s: Seq<String>, p: Seq<char>) -> bool {
    exists|i: int| 0 <= i < s.len() && s[i]@ == p
}

/// A model of the local cache: the set of file paths it holds. The sole
/// cache-validity test is presence — a file once present is never fetched
/// again.
#[derive(Debug)]
pub struct CacheModel {
    files: Vec<String>,
}

impl View for CacheModel {
    type V = Set<Seq<char>>;

    closed spec fn view(&self) -> Set<Seq<char>> {
        Set::new(|p: Seq<char>| str_seq_contains(self.files@, p))
    }
}

impl CacheModel {
    /// An empty cache.
    pub fn new() -> (r: CacheModel)
        ensures
            r@ == Set::<Seq<char>>::empty(),
    {
        let r = CacheModel { files: Vec::new() };
        proof {
            assert(r@ =~= Set::<Seq<char>>::empty());
        }
        r
    }

    /// Whether the cache holds `path`.
    pub fn contains(&self, path: &String) -> (r: bool)
        ensures
            r == self@.contains(path@),
    {
        let n = self.files.len();
        let mut i: usize = 0;
        while i < n
            invariant
                0 <= i <= n,
                n == self.files@.len(),
                forall|j: int| 0 <= j < i ==> self.files@[j]@ != path@,
            decreases n - i,
        {
            if self.files[i].eq(path) {
                proof {
                    assert(self.files@[i as int]@ == path@);
                }
                return true;
            }
            i = i + 1;
        }
        proof {
            assert(!str_seq_contains(self.files@, path@));
        }
        false
    }

    /// One fetch attempt against the cache, with the remote's answer for
    /// the file: mirrors `spec_fetch_step` exactly.
    pub fn fetch_file(&mut self, path: &String, answer: RemoteAnswer) -> (r: FetchOutcome)
        ensures
            r == spec_fetch_step(old(self)@, path@, answer).0,
            r == spec_fetch_outcome(old(self)@.contains(path@), answer),
            final(self)@ == spec_fetch_step(old(self)@, path@, answer).1,
    {
        if self.contains(path) {
            FetchOutcome::AlreadyPresent
        } else {
            match answer {
                RemoteAnswer::Found => {
                    let ghost s_old = self.files@;
                    self.files.push(path.clone());
                    proof {
                        assert forall|p: Seq<char>|
                            str_seq_contains(self.files@, p) <==> (str_seq_contains(s_old, p) || p
                                == path@) by {
                            if str_seq_contains(self.files@, p) {
                                let i = choose|i: int|
                                    0 <= i < self.files@.len() && self.files@[i]@ == p;
                                if i < s_old.len() {
                                    assert(s_old[i]@ == p);
                                } else {
                                    assert(p == path@);
                                }
                            }
                            if str_seq_contains(s_old, p) {
                                let i = choose|i: int| 0 <= i < s_old.len() && s_old[i]@ == p;
                                assert(self.files@[i]@ == p);
                            }
                            if p == path@ {
                                assert(self.files@[s_old.len() as int]@ == p);
                            }
                        }
                        assert(self@ =~= old(self)@.insert(path@));
                    }
                    FetchOutcome::Downloaded
                },
                RemoteAnswer::Missing => FetchOutcome::NotFound,
                RemoteAnswer::Failed => FetchOutcome::TransportError,
            }
        }
    }
}

/// The cache after a sequence of fetch attempts, each a path paired with
/// the remote's answer for it.
pub open spec fn spec_run_walk(
    present: Set<Seq<char>>,
    actions: Seq<(Seq<char>, RemoteAnswer)>,
) -> Set<Seq<char>>
    decreases actions.len(),
{
    if actions.len() == 0 {
        present
    } else {
        spec_run_walk(
            spec_fetch_step(present, actions[0].0, actions[0].1).1,
            actions.subrange(1, actions.len() as int),
        )
    }
}

/// Whether a run of fetch attempts downloads nothing at all.
pub open spec fn spec_run_downloads_none(
    present: Set<Seq<char>>,
    actions: Seq<(Seq<char>, RemoteAnswer)>,
) -> bool
    decreases actions.len(),
{
    if actions.len() == 0 {
        true
    } else {
        spec_fetch_step(present, actions[0].0, actions[0].1).0 != FetchOutcome::Downloaded
            && spec_run_downloads_none(
            spec_fetch_step(present, actions[0].0, actions[0].1).1,
            actions.subrange(1, actions.len() as int),
        )
    }
}

/// A run only ever adds files to the cache.
proof fn lemma_run_grows(present: Set<Seq<char>>, actions: Seq<(Seq<char>, RemoteAnswer)>)
    ensures
        present.subset_of(spec_run_walk(present, actions)),
    decreases actions.len(),
{
    if actions.len() > 0 {
        let after_first = spec_fetch_step(present, actions[0].0, actions[0].1).1;
        assert(present.subset_of(after_first));
        lemma_run_grows(after_first, actions.subrange(1, actions.len() as int));
    }
}

/// Every file the remote served during a run is in the cache afterwards.
proof fn lemma_found_in_run(
    present: Set<Seq<char>>,
    actions: Seq<(Seq<char>, RemoteAnswer)>,
    j: int,
)
    requires
        0 <= j < actions.len(),
        actions[j].1 == RemoteAnswer::Found,
    ensures
        spec_run_walk(present, actions).contains(actions[j].0),
    decreases actions.len(),
{
    let after_first = spec_fetch_step(present, actions[0].0, actions[0].1).1;
    let rest = actions.subrange(1, actions.len() as int);
    if j == 0 {
        assert(after_first.contains(actions[0].0));
        lemma_run_grows(after_first, rest);
    } else {
        assert(rest[j - 1] == actions[j]);
        lemma_found_in_run(after_first, rest, j - 1);
    }
}

/// A run over a cache that already holds every file the remote serves
/// changes nothing and downloads nothing.
proof fn lemma_stable_run(present: Set<Seq<char>>, actions: Seq<(Seq<char>, RemoteAnswer)>)
    requires
        forall|j: int|
            0 <= j < actions.len() && actions[j].1 == RemoteAnswer::Found
                ==> present.contains(actions[j].0),
    ensures
        spec_run_walk(present, actions) == present,
        spec_run_downloads_none(present, actions),
    decreases actions.len(),
{
    if actions.len() > 0 {
        let rest = actions.subrange(1, actions.len() as int);
        if !present.contains(actions[0].0) {
            assert(actions[0].1 != RemoteAnswer::Found);
        }
        assert(spec_fetch_step(present, actions[0].0, actions[0].1).1 == present);
        assert forall|j: int|
            0 <= j < rest.len() && rest[j].1 == RemoteAnswer::Found implies present.contains(
            rest[j].0,
        ) by {
            assert(rest[j] == actions[j + 1]);
        }
        lemma_stable_run(present, rest);
    }
}

/// Running the same walk a second time against the cache the first run
/// left behind performs no download at all and leaves the cache tree
/// identical.
pub proof fn lemma_walk_idempotent(
    present: Set<Seq<char>>,
    actions: Seq<(Seq<char>, RemoteAnswer)>,
)
    ensures
        spec_run_walk(spec_run_walk(present, actions), actions) == spec_run_walk(
            present,
            actions,
        ),
        spec_run_downloads_none(spec_run_walk(present, actions), actions),
{
    let after_first = spec_run_walk(present, actions);
    assert forall|j: int|
        0 <= j < actions.len() && actions[j].1 == RemoteAnswer::Found implies after_first.contains(
        actions[j].0,
    ) by {
        lemma_found_in_run(present, actions, j);
    }
    lemma_stable_run(after_first, actions);
}

} // verus!
