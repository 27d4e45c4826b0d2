//! The effective-version resolution policy and the absorption of
//! `dependencyManagement` declarations into the walk-wide table.
//!
//! Precedence for a dependency's version: an explicit version token on the
//! dependency node wins and passes through placeholder resolution; failing
//! that, a managed version recorded for the `(group, artifact)` pair is
//! used verbatim (it was resolved when it was recorded); failing both, the
//! dependency has no version and its branch is skipped.

use vstd::prelude::*;
use crate::dependency::Dependency;
use crate::project::Project;
use crate::resolver::is_placeholder;
use crate::resolver::resolve_placeholder;
use crate::resolver::spec_opt_text;
use crate::resolver::spec_resolve;
use crate::tables::ManagedVersions;
use crate::tables::PropertyTable;

verus! {

/// The effective version of a dependency under the resolution policy, or
/// nothing when neither an explicit nor a managed version exists.
pub open spec fn spec_dependency_version(
    dep: Dependency,
    props: Map<Seq<char>, Seq<char>>,
    own: Option<Seq<char>>,
    parent: Option<Seq<char>>,
    managed: Map<(Seq<char>, Seq<char>), Seq<char>>,
) -> Option<Seq<char>> {
    match dep.spec_version_text() {
        Some(raw) => Some(spec_resolve(raw, props, own, parent)),
        None => if managed.contains_key((dep.group_id@, dep.artifact_id@)) {
            Some(managed[(dep.group_id@, dep.artifact_id@)])
        } else {
            None
        },
    }
}

/// Resolves a dependency's effective version against the enclosing
/// descriptor's context. `None` signals that the dependency's branch is to
/// be skipped with a diagnostic; it never halts the walk.
pub fn resolve_dependency_version(
    project: &Project,
    dep: &Dependency,
    props: &PropertyTable,
    managed: &ManagedVersions,
) -> (r: Option<String>)
    ensures
        spec_opt_text(r) == spec_dependency_version(
            *dep,
            props@,
            project.spec_own_version(),
            project.spec_parent_version(),
            managed@,
        ),
{
    match dep.version_string() {
        Some(raw) => {
            let own = project.own_version();
            let parent = project.parent_version();
            Some(resolve_placeholder(&raw, props, &own, &parent))
        },
        None => managed.get(&dep.group_id, &dep.artifact_id),
    }
}

/// A dependency that carries an explicit version token is decided by that
/// token alone: the managed-versions table is never consulted, and a
/// literal (non-placeholder) token is returned unchanged.
pub proof fn lemma_explicit_version_wins(
    dep: Dependency,
    props: Map<Seq<char>, Seq<char>>,
    own: Option<Seq<char>>,
    parent: Option<Seq<char>>,
    m1: Map<(Seq<char>, Seq<char>), Seq<char>>,
    m2: Map<(Seq<char>, Seq<char>), Seq<char>>,
)
    requires
        dep.spec_version_text() is Some,
    ensures
        spec_dependency_version(dep, props, own, parent, m1) == spec_dependency_version(
            dep,
            props,
            own,
            parent,
            m2,
        ),
        !is_placeholder(dep.spec_version_text()->Some_0) ==> spec_dependency_version(
            dep,
            props,
            own,
            parent,
            m1,
        ) == dep.spec_version_text(),
{
}

/// A dependency without an explicit version resolves to the managed entry
/// stored for its `(group, artifact)` pair when there is one, and to
/// nothing otherwise.
pub proof fn lemma_managed_version_decides(
    dep: Dependency,
    props: Map<Seq<char>, Seq<char>>,
    own: Option<Seq<char>>,
    parent: Option<Seq<char>>,
    managed: Map<(Seq<char>, Seq<char>), Seq<char>>,
)
    requires
        dep.spec_version_text() is None,
    ensures
        managed.contains_key((dep.group_id@, dep.artifact_id@)) ==> spec_dependency_version(
            dep,
            props,
            own,
            parent,
            managed,
        ) == Some(managed[(dep.group_id@, dep.artifact_id@)]),
        !managed.contains_key((dep.group_id@, dep.artifact_id@)) ==> spec_dependency_version(
            dep,
            props,
            own,
            parent,
            managed,
        ) is None,
{
}

/// One `dependencyManagement` entry absorbed into the table: an entry with
/// a version token is resolved and recorded unless its coordinate pair is
/// already recorded; an entry without one is ignored.
pub open spec fn spec_absorb_entry(
    m: Map<(Seq<char>, Seq<char>), Seq<char>>,
    d: Dependency,
    props: Map<Seq<char>, Seq<char>>,
    own: Option<Seq<char>>,
    parent: Option<Seq<char>>,
) -> Map<(Seq<char>, Seq<char>), Seq<char>> {
    match d.spec_version_text() {
        Some(raw) => if m.contains_key((d.group_id@, d.artifact_id@)) {
            m
        } else {
            m.insert((d.group_id@, d.artifact_id@), spec_resolve(raw, props, own, parent))
        },
        None => m,
    }
}

/// A whole `dependencyManagement` block absorbed in document order.
pub open spec fn spec_absorb(
    m: Map<(Seq<char>, Seq<char>), Seq<char>>,
    entries: Seq<Dependency>,
    props: Map<Seq<char>, Seq<char>>,
    own: Option<Seq<char>>,
    parent: Option<Seq<char>>,
) -> Map<(Seq<char>, Seq<char>), Seq<char>>
    decreases entries.len(),
{
    if entries.len() == 0 {
        m
    } else {
        spec_absorb(
            spec_absorb_entry(m, entries[0], props, own, parent),
            entries.subrange(1, entries.len() as int),
            props,
            own,
            parent,
        )
    }
}

/// Absorbs a descriptor's `dependencyManagement` block into the walk-wide
/// table, resolving each entry's version against the descriptor's own
/// context, before the descriptor's own dependencies are resolved. A pair
/// already recorded earlier in the walk is left as it is.
pub fn absorb_dependency_management(
    project: &Project,
    props: &PropertyTable,
    managed: &mut ManagedVersions,
)
    ensures
        final(managed)@ == spec_absorb(
            old(managed)@,
            project.spec_managed_entries(),
            props@,
            project.spec_own_version(),
            project.spec_parent_version(),
        ),
{
    let own = project.own_version();
    let parent = project.parent_version();
    match &project.dependency_management {
        None => {},
        Some(dm) => match &dm.dependencies {
            None => {},
            Some(ds) => {
                let ghost entries = ds.dependency@;
                let n = ds.dependency.len();
                let mut i: usize = 0;
                proof {
                    assert(entries.subrange(0, n as int) =~= entries);
                }
                while i < n
                    invariant
                        0 <= i <= n,
                        n == entries.len(),
                        entries == ds.dependency@,
                        entries == project.spec_managed_entries(),
                        spec_opt_text(own) == project.spec_own_version(),
                        spec_opt_text(parent) == project.spec_parent_version(),
                        spec_absorb(
                            old(managed)@,
                            entries,
                            props@,
                            project.spec_own_version(),
                            project.spec_parent_version(),
                        ) == spec_absorb(
                            managed@,
                            entries.subrange(i as int, n as int),
                            props@,
                            project.spec_own_version(),
                            project.spec_parent_version(),
                        ),
                    decreases n - i,
                {
                    let ghost tail = entries.subrange(i as int, n as int);
                    proof {
                        assert(tail[0] == entries[i as int]);
                        assert(tail.subrange(1, tail.len() as int) =~= entries.subrange(
                            i + 1,
                            n as int,
                        ));
                    }
                    let d = &ds.dependency[i];
                    match d.version_string() {
                        Some(raw) => {
                            let ver = resolve_placeholder(&raw, props, &own, &parent);
                            managed.insert_if_absent(
                                d.group_id.clone(),
                                d.artifact_id.clone(),
                                ver,
                            );
                        },
                        None => {},
                    }
                    i = i + 1;
                }
                proof {
                    assert(entries.subrange(n as int, n as int) =~= Seq::<Dependency>::empty());
                }
            },
        },
    }
}

} // verus!
