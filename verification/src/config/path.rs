//! Paths as text, with `/` between their parts.
use crate::text;
use vstd::prelude::*;

verus! {

/// The path to `part` from `base`: an absolute part stands for itself, and any
/// other follows the base behind one separator.
pub open spec fn joined(base: Seq<char>, part: Seq<char>) -> Seq<char> {
    if part.len() > 0 && part[0] == '/' {
        part
    } else if base.len() == 0 || base.last() == '/' {
        base + part
    } else {
        base + seq!['/'] + part
    }
}

/// The path to `part` from `base`.
pub fn join(base: &str, part: &str) -> (path: String)
    ensures
        path@ == joined(base@, part@),
{
    let parts = text::chars_of(part);
    if parts.len() > 0 && parts[0] == '/' {
        return part.to_owned();
    }
    let chars = text::chars_of(base);
    if chars.len() == 0 || chars[chars.len() - 1] == '/' {
        return text::concat(base, part);
    }
    let mut path = base.to_owned();
    path.push('/');
    path.append(part);
    proof {
        assert(path@ =~= base@ + seq!['/'] + part@);
    }
    path
}

} // verus!
