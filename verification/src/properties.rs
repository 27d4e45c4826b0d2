//! The `<properties>` block of a descriptor and its flattening into a
//! property table.

use vstd::prelude::*;
use crate::tables::PropertyTable;

verus! {

/// A property value as a descriptor carries it: bare text or a wrapper
/// node whose textual content may be absent.
#[derive(Debug, Clone)]
pub enum PropValue {
    Text(String),
    Node { text: Option<String> },
}

impl PropValue {
    /// The effective textual content, regardless of which shape carried it.
    pub open spec fn spec_text(&self) -> Option<Seq<char>> {
        match self {
            PropValue::Text(s) => Some(s@),
            PropValue::Node { text } => match text {
                Some(s) => Some(s@),
                None => None,
            },
        }
    }

    /// Flattens to the effective text, consuming the value.
    pub fn into_string(self) -> (r: Option<String>)
        ensures
            match r {
                Some(s) => self.spec_text() == Some(s@),
                None => self.spec_text() is None,
            },
    {
        match self {
            PropValue::Text(s) => Some(s),
            PropValue::Node { text } => text,
        }
    }

    /// Flattens to the effective text without consuming the value.
    pub fn as_string(&self) -> (r: Option<String>)
        ensures
            match r {
                Some(s) => self.spec_text() == Some(s@),
                None => self.spec_text() is None,
            },
    {
        match self {
            PropValue::Text(s) => Some(s.clone()),
            PropValue::Node { text } => match text {
                Some(s) => Some(s.clone()),
                None => None,
            },
        }
    }
}

/// The key/value pairs of a descriptor's `<properties>` block, in document
/// order.
#[derive(Debug, Clone)]
pub struct Properties {
    pub values: Vec<(String, PropValue)>,
}

/// The mapping that a sequence of property entries denotes: entries are
/// absorbed left to right, a later entry for the same key shadowing an
/// earlier one, and entries without effective text are dropped.
pub open spec fn entries_property_map(s: Seq<(String, PropValue)>) -> Map<Seq<char>, Seq<char>>
    decreases s.len(),
{
    if s.len() == 0 {
        Map::empty()
    } else {
        let m = entries_property_map(s.drop_last());
        match s.last().1.spec_text() {
            Some(t) => m.insert(s.last().0@, t),
            None => m,
        }
    }
}

/// The property table a descriptor's `<properties>` block denotes; an
/// absent block denotes the empty table.
pub open spec fn spec_props_map(p: Option<Properties>) -> Map<Seq<char>, Seq<char>> {
    match p {
        Some(props) => entries_property_map(props.values@),
        None => Map::empty(),
    }
}

/// Builds the property table of one descriptor from its `<properties>`
/// block: every entry with effective text is bound, later entries shadow
/// earlier ones.
pub fn props_to_map(p: Option<Properties>) -> (r: PropertyTable)
    ensures
        r@ == spec_props_map(p),
{
    let mut out = PropertyTable::new();
    match p {
        None => out,
        Some(props) => {
            let n = props.values.len();
            let mut i: usize = 0;
            while i < n
                invariant
                    0 <= i <= n,
                    n == props.values@.len(),
                    out@ == entries_property_map(props.values@.take(i as int)),
                decreases n - i,
            {
                let key = props.values[i].0.clone();
                match props.values[i].1.as_string() {
                    Some(s) => {
                        out.insert(key, s);
                    },
                    None => {},
                }
                proof {
                    assert(props.values@.take(i + 1).drop_last() =~= props.values@.take(i as int));
                    assert(props.values@.take(i + 1).last() == props.values@[i as int]);
                }
                i = i + 1;
            }
            proof {
                assert(props.values@.take(n as int) =~= props.values@);
            }
            out
        },
    }
}

} // verus!
