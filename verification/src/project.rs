//! One parsed descriptor: coordinates, parent reference, dependency lists,
//! managed-version declarations and properties.

use vstd::prelude::*;
use crate::dependencies::Dependencies;
use crate::dependency::Dependency;
use crate::dependency_management::DependencyManagement;
use crate::properties::Properties;

verus! {

/// A parsed descriptor. Everything but the artifact id is optional and
/// defaults to "absent" rather than failing the parse.
#[derive(Debug)]
pub struct Project {
    pub group_id: Option<String>,
    pub artifact_id: String,
    pub version: Option<String>,
    pub parent: Option<Dependency>,
    pub dependencies: Option<Dependencies>,
    pub dependency_management: Option<DependencyManagement>,
    pub properties: Option<Properties>,
}

impl Project {
    /// The descriptor's own version, if declared.
    pub open spec fn spec_own_version(&self) -> Option<Seq<char>> {
        match self.version {
            Some(v) => Some(v@),
            None => None,
        }
    }

    /// The parent reference's version token, flattened to plain text.
    pub open spec fn spec_parent_version(&self) -> Option<Seq<char>> {
        match self.parent {
            Some(p) => p.spec_version_text(),
            None => None,
        }
    }

    /// The entries of the `dependencyManagement` block, or nothing.
    pub open spec fn spec_managed_entries(&self) -> Seq<Dependency> {
        match self.dependency_management {
            Some(dm) => match dm.dependencies {
                Some(ds) => ds.dependency@,
                None => Seq::<Dependency>::empty(),
            },
            None => Seq::<Dependency>::empty(),
        }
    }

    /// The descriptor's own dependency entries, or nothing.
    pub open spec fn spec_dependency_entries(&self) -> Seq<Dependency> {
        match self.dependencies {
            Some(ds) => ds.dependency@,
            None => Seq::<Dependency>::empty(),
        }
    }

    /// The descriptor's own version, cloned.
    pub fn own_version(&self) -> (r: Option<String>)
        ensures
            match r {
                Some(s) => self.spec_own_version() == Some(s@),
                None => self.spec_own_version() is None,
            },
    {
        match &self.version {
            Some(v) => Some(v.clone()),
            None => None,
        }
    }

    /// The parent reference's version text, cloned.
    pub fn parent_version(&self) -> (r: Option<String>)
        ensures
            match r {
                Some(s) => self.spec_parent_version() == Some(s@),
                None => self.spec_parent_version() is None,
            },
    {
        match &self.parent {
            Some(p) => p.version_string(),
            None => None,
        }
    }
}

} // verus!
