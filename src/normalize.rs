//! Field lists for sparse-fieldset requests, and names taken from paths.
use vstd::prelude::*;

use crate::text::{join_commas, joined, replace_all, replaced};

verus! {

/// A field name as the wire format spells it: the `r#` of a raw identifier
/// removed.
pub open spec fn wire_name(f: Seq<char>) -> Seq<char> {
    replaced(f, "r#"@, ""@)
}

/// Field names in wire form, joined by commas.
pub open spec fn field_list(names: Seq<Seq<char>>) -> Seq<char> {
    joined(names.map_values(|f: Seq<char>| wire_name(f)))
}

/// The comma-separated field list of a sparse-fieldset request.
pub fn normalize_field_names(fields: &[&str]) -> (r: String)
    ensures
        r@ == field_list(fields@.map_values(|f: &str| f@)),
{
    let mut parts: Vec<String> = Vec::new();
    let mut i: usize = 0;
    while i < fields.len()
        invariant
            i <= fields@.len(),
            parts@.len() == i,
            forall|k: int| 0 <= k < i ==> #[trigger] parts@[k]@ == wire_name(fields@[k]@),
        decreases fields@.len() - i,
    {
        proof {
            reveal_strlit("r#");
        }
        let w = replace_all(fields[i], "r#", "");
        parts.push(w);
        i = i + 1;
    }
    let r = join_commas(&parts);
    assert(parts@.map_values(|p: String| p@) =~= fields@.map_values(|f: &str| f@).map_values(
        |f: Seq<char>| wire_name(f),
    ));
    r
}

/// What `Path::file_stem` gives for a path written as `s`, when that is valid
/// UTF-8: the last component without its extension.
pub uninterp spec fn file_stem_of(s: Seq<char>) -> Option<Seq<char>>;

/// Relies on `std::path::Path::file_stem` and `OsStr::to_str`: the stem of the
/// path's last component, or `None`.
#[verifier::external_body]
fn path_file_stem(s: &str) -> (r: Option<String>)
    ensures
        r matches Some(v) ==> file_stem_of(s@) == Some(v@),
        r is None ==> file_stem_of(s@) is None,
{
    std::path::Path::new(s).file_stem().and_then(|x| x.to_str()).map(|x| x.to_owned())
}

/// The last component of a path or URL, without its extension: the name of
/// a repository from its remote URL, or of a branch from its reference name.
pub fn normalize(s: &str) -> (r: Option<String>)
    ensures
        r matches Some(v) ==> file_stem_of(s@) == Some(v@),
        r is None ==> file_stem_of(s@) is None,
{
    path_file_stem(s)
}

} // verus!
