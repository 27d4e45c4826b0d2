//! The `dependencyManagement` section of a descriptor: version declarations
//! that apply to dependencies which omit an explicit version of their own.

use vstd::prelude::*;
use crate::dependencies::Dependencies;

verus! {

/// A descriptor's managed-version declarations, if it has any.
#[derive(Debug, Clone)]
pub struct DependencyManagement {
    pub dependencies: Option<Dependencies>,
}

} // verus!
