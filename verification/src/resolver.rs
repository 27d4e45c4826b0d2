//! Substitution of `${key}` placeholder tokens in version strings.
//!
//! A token that starts with the `${` marker is resolved: its key is the
//! text between the marker delimiters. The synthetic key `project.version`
//! answers with the enclosing descriptor's own version, falling back to its
//! parent's; every other key is looked up in the property table. A key that
//! nothing answers leaves the token unchanged — unresolved placeholders
//! pass through verbatim rather than erroring.

use vstd::prelude::*;
use vstd::string::StrSliceExecFns;
use vstd::string::StringExecFns;
use crate::tables::PropertyTable;

verus! {

/// The characters that delimit a placeholder token.
pub open spec fn marker_char(c: char) -> bool {
    c == '$' || c == '{' || c == '}'
}

/// Whether a version token is a placeholder: it starts with `${`.
pub open spec fn is_placeholder(s: Seq<char>) -> bool {
    s.len() >= 2 && s[0] == '$' && s[1] == '{'
}

/// The token with its leading marker characters removed.
pub open spec fn trim_leading(s: Seq<char>) -> Seq<char>
    decreases s.len(),
{
    if s.len() > 0 && marker_char(s[0]) {
        trim_leading(s.subrange(1, s.len() as int))
    } else {
        s
    }
}

/// The token with its trailing marker characters removed.
pub open spec fn trim_trailing(s: Seq<char>) -> Seq<char>
    decreases s.len(),
{
    if s.len() > 0 && marker_char(s[s.len() - 1]) {
        trim_trailing(s.subrange(0, s.len() - 1))
    } else {
        s
    }
}

/// The key of a placeholder token: what remains between the marker
/// delimiters once they are stripped from both ends.
pub open spec fn placeholder_key(s: Seq<char>) -> Seq<char> {
    trim_trailing(trim_leading(s))
}

/// The synthetic key that names the enclosing project's version.
pub open spec fn project_version_key() -> Seq<char> {
    "project.version"@
}

/// The text of an optional string.
pub open spec fn spec_opt_text(o: Option<String>) -> Option<Seq<char>> {
    match o {
        Some(s) => Some(s@),
        None => None,
    }
}

/// What resolving one version token returns: a non-placeholder passes
/// through unchanged; `${project.version}` answers with the descriptor's
/// own version, else its parent's, else the token itself; any other key is
/// looked up in the property table, an unknown key leaving the token
/// unchanged.
pub open spec fn spec_resolve(
    raw: Seq<char>,
    props: Map<Seq<char>, Seq<char>>,
    own: Option<Seq<char>>,
    parent: Option<Seq<char>>,
) -> Seq<char> {
    if !is_placeholder(raw) {
        raw
    } else {
        let key = placeholder_key(raw);
        if key == project_version_key() {
            if own is Some {
                own->Some_0
            } else if parent is Some {
                parent->Some_0
            } else {
                raw
            }
        } else if props.contains_key(key) {
            props[key]
        } else {
            raw
        }
    }
}

/// Extracts the key of a placeholder token by stripping the marker
/// characters from both ends.
fn extract_key(raw: &String) -> (r: String)
    ensures
        r@ == placeholder_key(raw@),
{
    let s = raw.as_str();
    let n = s.unicode_len();
    let mut start: usize = 0;
    proof {
        assert(raw@.subrange(0, n as int) =~= raw@);
    }
    loop
        invariant
            0 <= start <= n,
            n == raw@.len(),
            s@ == raw@,
            trim_leading(raw@) == trim_leading(raw@.subrange(start as int, n as int)),
        ensures
            0 <= start <= n,
            s@ == raw@,
            n == raw@.len(),
            trim_leading(raw@) == raw@.subrange(start as int, n as int),
        decreases n - start,
    {
        let ghost t = raw@.subrange(start as int, n as int);
        if start >= n {
            proof {
                assert(t =~= Seq::<char>::empty());
            }
            break ;
        }
        let c = s.get_char(start);
        proof {
            assert(t[0] == raw@[start as int]);
        }
        if !(c == '$' || c == '{' || c == '}') {
            break ;
        }
        proof {
            assert(t.subrange(1, t.len() as int) =~= raw@.subrange(start + 1, n as int));
        }
        start = start + 1;
    }
    let mut end: usize = n;
    loop
        invariant
            start <= end <= n,
            n == raw@.len(),
            s@ == raw@,
            trim_trailing(raw@.subrange(start as int, n as int)) == trim_trailing(
                raw@.subrange(start as int, end as int),
            ),
            trim_leading(raw@) == raw@.subrange(start as int, n as int),
        ensures
            start <= end <= n,
            s@ == raw@,
            placeholder_key(raw@) == raw@.subrange(start as int, end as int),
        decreases end,
    {
        let ghost t = raw@.subrange(start as int, end as int);
        if end <= start {
            proof {
                assert(t =~= Seq::<char>::empty());
            }
            break ;
        }
        let c = s.get_char(end - 1);
        proof {
            assert(t[t.len() - 1] == raw@[end - 1]);
        }
        if !(c == '$' || c == '{' || c == '}') {
            break ;
        }
        proof {
            assert(t.subrange(0, t.len() - 1) =~= raw@.subrange(start as int, end - 1));
        }
        end = end - 1;
    }
    let key = s.substring_char(start, end);
    key.to_owned()
}

/// Resolves one version token against the property table and the
/// enclosing descriptor's own and parent versions.
pub fn resolve_placeholder(
    raw: &String,
    props: &PropertyTable,
    own_version: &Option<String>,
    parent_version: &Option<String>,
) -> (r: String)
    ensures
        r@ == spec_resolve(
            raw@,
            props@,
            spec_opt_text(*own_version),
            spec_opt_text(*parent_version),
        ),
{
    let s = raw.as_str();
    let n = s.unicode_len();
    if !(n >= 2 && s.get_char(0) == '$' && s.get_char(1) == '{') {
        return raw.clone();
    }
    let key = extract_key(raw);
    let synthetic = String::from_str("project.version");
    if key.eq(&synthetic) {
        match own_version {
            Some(v) => v.clone(),
            None => match parent_version {
                Some(v) => v.clone(),
                None => raw.clone(),
            },
        }
    } else {
        match props.get(&key) {
            Some(v) => v,
            None => raw.clone(),
        }
    }
}

} // verus!
