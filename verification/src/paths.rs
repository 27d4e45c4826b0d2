//! The deterministic repository layout: where a coordinate's files live,
//! both under the local cache root and under the remote base URL.
//!
//! A coordinate `(group, artifact, version)` maps to
//! `<group with '.' replaced by '/'>/<artifact>/<version>/<artifact>-<version>.<ext>`,
//! appended to the root (or base URL) with a single `/`.

use vstd::prelude::*;
use vstd::string::StrSliceExecFns;
use vstd::string::StringExecFns;

verus! {

/// The group id with every dot replaced by a path separator.
pub open spec fn slashed_group(g: Seq<char>) -> Seq<char> {
    Seq::new(g.len(), |i: int| if g[i] == '.' { '/' } else { g[i] })
}

/// The path of a coordinate's file relative to a repository root.
pub open spec fn spec_relative_path(
    g: Seq<char>,
    a: Seq<char>,
    v: Seq<char>,
    ext: Seq<char>,
) -> Seq<char> {
    slashed_group(g) + seq!['/'] + a + seq!['/'] + v + seq!['/'] + a + seq!['-'] + v + seq!['.']
        + ext
}

/// A root and a relative path joined with a single separator.
pub open spec fn spec_joined(base: Seq<char>, rel: Seq<char>) -> Seq<char> {
    base + seq!['/'] + rel
}

/// Relies on String::push: appends the given character to the end of the
/// string.
#[verifier::external_body]
fn push_char(s: &mut String, c: char)
    ensures
        final(s)@ == old(s)@.push(c),
{
    s.push(c);
}

/// Appends the group id to `out`, replacing every dot by a separator.
fn append_slashed_group(out: &mut String, group: &String)
    ensures
        final(out)@ == old(out)@ + slashed_group(group@),
{
    let ghost orig = out@;
    let s = group.as_str();
    let n = s.unicode_len();
    let mut i: usize = 0;
    proof {
        assert(out@ =~= orig + slashed_group(group@).take(0));
    }
    while i < n
        invariant
            0 <= i <= n,
            n == group@.len(),
            s@ == group@,
            out@ == orig + slashed_group(group@).take(i as int),
        decreases n - i,
    {
        let c = s.get_char(i);
        if c == '.' {
            push_char(out, '/');
        } else {
            push_char(out, c);
        }
        proof {
            assert(slashed_group(group@).take(i + 1) =~= slashed_group(group@).take(i as int).push(
                slashed_group(group@)[i as int],
            ));
            assert(out@ =~= orig + slashed_group(group@).take(i + 1));
        }
        i = i + 1;
    }
    proof {
        assert(slashed_group(group@).take(n as int) =~= slashed_group(group@));
    }
}

/// Builds the path of a coordinate's file relative to a repository root.
pub fn relative_artifact_path(
    group: &String,
    artifact: &String,
    version: &String,
    extension: &String,
) -> (r: String)
    ensures
        r@ == spec_relative_path(group@, artifact@, version@, extension@),
{
    let mut out = String::new();
    append_slashed_group(&mut out, group);
    push_char(&mut out, '/');
    out.append(artifact.as_str());
    push_char(&mut out, '/');
    out.append(version.as_str());
    push_char(&mut out, '/');
    out.append(artifact.as_str());
    push_char(&mut out, '-');
    out.append(version.as_str());
    push_char(&mut out, '.');
    out.append(extension.as_str());
    proof {
        assert(out@ =~= spec_relative_path(group@, artifact@, version@, extension@));
    }
    out
}

/// Joins a repository root (or base URL) and a relative path with a
/// single separator.
pub fn join_path(base: &String, rel: &String) -> (r: String)
    ensures
        r@ == spec_joined(base@, rel@),
{
    let mut out = base.clone();
    push_char(&mut out, '/');
    out.append(rel.as_str());
    proof {
        assert(out@ =~= spec_joined(base@, rel@));
    }
    out
}

/// The fixed base URL of the remote repository.
pub fn default_remote_base() -> (r: String)
    ensures
        r@ == "https://repo.maven.apache.org/maven2"@,
{
    String::from_str("https://repo.maven.apache.org/maven2")
}

/// The local cache root under a home directory.
pub fn local_repository_root(home: &String) -> (r: String)
    ensures
        r@ == spec_joined(home@, ".m2/repository"@),
{
    let rel = String::from_str(".m2/repository");
    join_path(home, &rel)
}

} // verus!
