//! Resolution of the transitive artifact closure of POM-style project
//! descriptors against a remote repository, mirrored into a local on-disk
//! cache.
//!
//! This crate holds the verified core: the descriptor data model, property
//! placeholder substitution, the effective-version resolution policy, the
//! deterministic repository path layout, and the decisions the closure walk
//! makes at each step. File, network and XML plumbing live outside it and
//! hand the library plain values.

pub mod dependencies;
pub mod dependency;
pub mod dependency_management;
pub mod error;
pub mod fetch;
pub mod paths;
pub mod plan;
pub mod policy;
pub mod project;
pub mod properties;
pub mod resolver;
pub mod tables;
pub mod visited;

pub use dependencies::Dependencies;
pub use dependency::Dependency;
pub use dependency::TextOrNode;
pub use dependency_management::DependencyManagement;
pub use error::WalkError;
pub use fetch::CacheModel;
pub use fetch::FetchOutcome;
pub use fetch::RemoteAnswer;
pub use plan::FetchAction;
pub use project::Project;
pub use properties::PropValue;
pub use properties::Properties;
pub use properties::props_to_map;
pub use tables::ManagedVersions;
pub use tables::PropertyTable;
pub use visited::VisitedSet;
