//! Paths of the host, as text.

use vstd::prelude::*;
use crate::text;

verus! {

/// `part` below `base`: an absolute `part` stands for itself, and a separator
/// goes between the two where `base` does not end in one.
pub open spec fn join(base: Seq<char>, part: Seq<char>) -> Seq<char> {
    if part.len() > 0 && part[0] == '/' {
        part
    } else if base.len() == 0 || base.last() == '/' {
        base + part
    } else {
        base + "/"@ + part
    }
}

/// Executable form of [`join`].
pub fn joined(base: &str, part: &str) -> (s: String)
    ensures
        s@ == join(base@, part@),
{
    let b = text::chars_of(base);
    let p = text::chars_of(part);
    if p.len() > 0 && p[0] == '/' {
        part.to_owned()
    } else if b.len() == 0 || b[b.len() - 1] == '/' {
        text::cat2(base, part)
    } else {
        text::cat3(base, "/", part)
    }
}

/// A path without its last component, where it has one.
pub uninterp spec fn path_parent(path: Seq<char>) -> Option<Seq<char>>;

/// Calls `std::path::Path::parent`: the directory that holds a path. With the slash
/// as the only separator, as on the hosts of agents, the result depends on the path
/// alone and is named [`path_parent`].
#[verifier::external_body]
pub(crate) fn parent(path: &str) -> (r: Option<String>)
    ensures
        text::text_opt(r) == path_parent(path@),
{
    std::path::Path::new(path).parent().map(|p| p.display().to_string())
}

} // verus!
