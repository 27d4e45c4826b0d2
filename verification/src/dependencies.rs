//! The ordered list of dependency entries of a descriptor section.

use vstd::prelude::*;
use crate::dependency::Dependency;

verus! {

/// An ordered sequence of dependency entries, as one `<dependencies>`
/// section of a descriptor lists them.
#[derive(Debug, Clone)]
pub struct Dependencies {
    pub dependency: Vec<Dependency>,
}

} // verus!
