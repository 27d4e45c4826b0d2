//! The per-artifact step of the closure walk: resolve the effective
//! version, then name the four targets the fetch works on — the binary and
//! the descriptor file, each with its local cache path and its remote URL.
//!
//! The walk itself is driven from outside: for each descriptor it builds
//! the property table, absorbs the `dependencyManagement` block, then plans
//! the parent reference and each dependency in turn. A plan of `None`
//! means the dependency has no resolvable version: its branch is skipped
//! with a diagnostic and the walk continues with the siblings.

use vstd::prelude::*;
use vstd::string::StringExecFns;
use crate::dependency::Dependency;
use crate::paths::join_path;
use crate::paths::relative_artifact_path;
use crate::paths::spec_joined;
use crate::paths::spec_relative_path;
use crate::policy::resolve_dependency_version;
use crate::policy::spec_dependency_version;
use crate::project::Project;
use crate::tables::ManagedVersions;
use crate::tables::PropertyTable;

verus! {

/// Everything the fetch needs for one artifact: the resolved coordinate
/// and, for both of its files, where it lives locally and remotely.
#[derive(Debug)]
pub struct FetchAction {
    pub group_id: String,
    pub artifact_id: String,
    pub version: String,
    pub local_jar: String,
    pub jar_url: String,
    pub local_pom: String,
    pub pom_url: String,
}

/// Whether an action names the right targets for a dependency resolved to
/// `version` under the layout rooted at `local_root` and `remote_base`.
pub open spec fn spec_action_for(
    act: FetchAction,
    dep: Dependency,
    version: Seq<char>,
    local_root: Seq<char>,
    remote_base: Seq<char>,
) -> bool {
    &&& act.group_id@ == dep.group_id@
    &&& act.artifact_id@ == dep.artifact_id@
    &&& act.version@ == version
    &&& act.local_jar@ == spec_joined(
        local_root,
        spec_relative_path(dep.group_id@, dep.artifact_id@, version, "jar"@),
    )
    &&& act.jar_url@ == spec_joined(
        remote_base,
        spec_relative_path(dep.group_id@, dep.artifact_id@, version, "jar"@),
    )
    &&& act.local_pom@ == spec_joined(
        local_root,
        spec_relative_path(dep.group_id@, dep.artifact_id@, version, "pom"@),
    )
    &&& act.pom_url@ == spec_joined(
        remote_base,
        spec_relative_path(dep.group_id@, dep.artifact_id@, version, "pom"@),
    )
}

/// Plans the fetch of one dependency (or parent reference): resolves its
/// effective version and computes both files' local paths and remote URLs.
/// Returns nothing exactly when no version can be resolved; that skips the
/// branch and never halts the walk.
pub fn plan_artifact(
    project: &Project,
    dep: &Dependency,
    props: &PropertyTable,
    managed: &ManagedVersions,
    local_root: &String,
    remote_base: &String,
) -> (r: Option<FetchAction>)
    ensures
        match r {
            Some(act) => {
                &&& spec_dependency_version(
                    *dep,
                    props@,
                    project.spec_own_version(),
                    project.spec_parent_version(),
                    managed@,
                ) == Some(act.version@)
                &&& spec_action_for(act, *dep, act.version@, local_root@, remote_base@)
            },
            None => spec_dependency_version(
                *dep,
                props@,
                project.spec_own_version(),
                project.spec_parent_version(),
                managed@,
            ) is None,
        },
{
    let version = match resolve_dependency_version(project, dep, props, managed) {
        Some(v) => v,
        None => {
            return None;
        },
    };
    let jar_ext = String::from_str("jar");
    let pom_ext = String::from_str("pom");
    let jar_rel = relative_artifact_path(&dep.group_id, &dep.artifact_id, &version, &jar_ext);
    let pom_rel = relative_artifact_path(&dep.group_id, &dep.artifact_id, &version, &pom_ext);
    let act = FetchAction {
        group_id: dep.group_id.clone(),
        artifact_id: dep.artifact_id.clone(),
        local_jar: join_path(local_root, &jar_rel),
        jar_url: join_path(remote_base, &jar_rel),
        local_pom: join_path(local_root, &pom_rel),
        pom_url: join_path(remote_base, &pom_rel),
        version,
    };
    Some(act)
}

} // verus!
