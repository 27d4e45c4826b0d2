//! One dependency (or parent) reference inside a descriptor: group and
//! artifact coordinates and an optional version token.

use vstd::prelude::*;

verus! {

/// A version field as a descriptor carries it: either bare text, or a
/// wrapper node whose textual content may itself be absent. Both shapes
/// flatten to the same effective text.
#[derive(Debug, Clone)]
pub enum TextOrNode {
    Text(String),
    Node { text: Option<String> },
}

impl TextOrNode {
    /// The effective textual content, regardless of which shape carried it.
    pub open spec fn spec_text(&self) -> Option<Seq<char>> {
        match self {
            TextOrNode::Text(s) => Some(s@),
            TextOrNode::Node { text } => match text {
                Some(s) => Some(s@),
                None => None,
            },
        }
    }

    /// Flattens to the effective text, consuming the value.
    pub fn into_string(self) -> (r: Option<String>)
        ensures
            match r {
                Some(s) => self.spec_text() == Some(s@),
                None => self.spec_text() is None,
            },
    {
        match self {
            TextOrNode::Text(s) => Some(s),
            TextOrNode::Node { text } => text,
        }
    }

    /// Flattens to the effective text without consuming the value.
    pub fn as_string(&self) -> (r: Option<String>)
        ensures
            match r {
                Some(s) => self.spec_text() == Some(s@),
                None => self.spec_text() is None,
            },
    {
        match self {
            TextOrNode::Text(s) => Some(s.clone()),
            TextOrNode::Node { text } => match text {
                Some(s) => Some(s.clone()),
                None => None,
            },
        }
    }
}

/// A dependency or parent reference: coordinates plus an optional version
/// token (a literal or a `${...}` placeholder).
#[derive(Debug, Clone)]
pub struct Dependency {
    pub group_id: String,
    pub artifact_id: String,
    pub version: Option<TextOrNode>,
}

impl Dependency {
    /// The dependency's own version token, flattened to plain text.
    pub open spec fn spec_version_text(&self) -> Option<Seq<char>> {
        match self.version {
            Some(v) => v.spec_text(),
            None => None,
        }
    }

    /// Flattens the version token, if any, to plain text.
    pub fn version_string(&self) -> (r: Option<String>)
        ensures
            match r {
                Some(s) => self.spec_version_text() == Some(s@),
                None => self.spec_version_text() is None,
            },
    {
        match &self.version {
            Some(v) => v.as_string(),
            None => None,
        }
    }
}

} // verus!
