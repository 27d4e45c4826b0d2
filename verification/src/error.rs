//! The error taxonomy of the walk, and the containment policy: failures
//! are confined to the branch they occur on and never abort sibling
//! branches; only a usage error, or a root descriptor that cannot be read
//! or parsed, ends the whole run.

use vstd::prelude::*;

verus! {

/// Everything that can go wrong during the walk.
#[derive(Debug, Clone, Copy, PartialEq, Eq, Structural)]
pub enum WalkError {
    /// The command line named no root descriptor.
    UsageError,
    /// A descriptor file could not be opened.
    DescriptorUnreadable,
    /// A descriptor did not match the expected document shape.
    DescriptorMalformed,
    /// No explicit, managed or placeholder-resolvable version was found
    /// for a dependency.
    UnresolvedVersion,
    /// The remote repository answered that it does not have a file.
    ArtifactNotFound,
    /// A network failure, or a non-success response that is not
    /// "not found".
    TransportError,
}

/// Which errors end the whole run rather than one branch: a usage error
/// always; an unreadable or malformed descriptor only at the root; every
/// other error is contained in its branch.
pub open spec fn spec_error_is_fatal(e: WalkError, at_root: bool) -> bool {
    match e {
        WalkError::UsageError => true,
        WalkError::DescriptorUnreadable => at_root,
        WalkError::DescriptorMalformed => at_root,
        WalkError::UnresolvedVersion => false,
        WalkError::ArtifactNotFound => false,
        WalkError::TransportError => false,
    }
}

/// Decides whether an error ends the run or only its branch.
pub fn error_is_fatal(e: WalkError, at_root: bool) -> (r: bool)
    ensures
        r == spec_error_is_fatal(e, at_root),
{
    match e {
        WalkError::UsageError => true,
        WalkError::DescriptorUnreadable => at_root,
        WalkError::DescriptorMalformed => at_root,
        WalkError::UnresolvedVersion => false,
        WalkError::ArtifactNotFound => false,
        WalkError::TransportError => false,
    }
}

} // verus!
