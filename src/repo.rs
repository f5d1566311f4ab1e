//! Decisions about the local repository: which branch a command is about.
use vstd::prelude::*;

use crate::normalize::{file_stem_of, normalize};

verus! {

/// The branch a command is about: the one named, else the last component of
/// the current branch's upstream, else of the current branch itself.
pub fn normalize_branch_name(named: Option<&str>, upstream: Option<&str>, head_refname: &str) -> (r: Option<String>)
    ensures
        named matches Some(n) ==> (r matches Some(v) && v@ == n@),
        named is None && upstream is Some ==> (r matches Some(v) ==> file_stem_of(upstream.unwrap()@) == Some(v@)) && (r is None ==> file_stem_of(upstream.unwrap()@) is None),
        named is None && upstream is None ==> (r matches Some(v) ==> file_stem_of(head_refname@) == Some(v@)) && (r is None ==> file_stem_of(head_refname@) is None),
{
    match named {
        Some(n) => {
            let mut v = String::new();
            v.append(n);
            Some(v)
        },
        None => match upstream {
            Some(u) => normalize(u),
            None => normalize(head_refname),
        },
    }
}

} // verus!
