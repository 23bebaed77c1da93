//! Filtering of benchmark names by literal prefixes.
use vstd::prelude::*;

verus! {

/// `p` is a prefix of `s`.
pub open spec fn is_prefix(p: Seq<char>, s: Seq<char>) -> bool {
    p.len() <= s.len() && s.subrange(0, p.len() as int) == p
}

/// The view of an optional string slice.
pub open spec fn opt_view(o: Option<&str>) -> Option<Seq<char>> {
    match o {
        Some(s) => Some(s@),
        None => None,
    }
}

/// Whether `name` runs under the optional `exclude` and `required` prefixes:
/// it must start with `required` (when given) and must not start with
/// `exclude` (when given).
pub open spec fn passes(name: Seq<char>, exclude: Option<Seq<char>>, required: Option<Seq<char>>) -> bool {
    &&& match required {
        Some(p) => is_prefix(p, name),
        None => true,
    }
    &&& match exclude {
        Some(p) => !is_prefix(p, name),
        None => true,
    }
}

/// Relies on `str::starts_with` with a `&str` pattern: true exactly when the
/// pattern is a prefix of the string.
#[verifier::external_body]
fn starts_with(s: &str, prefix: &str) -> (r: bool)
    ensures
        r == is_prefix(prefix@, s@),
{
    s.starts_with(prefix)
}

/// Tests if the name of the benchmark passes through the exclusion and inclusion filter flags.
pub fn passes_filter(name: &str, exclude: Option<&str>, required: Option<&str>) -> (r: bool)
    ensures
        r == passes(name@, opt_view(exclude), opt_view(required)),
{
    match (exclude, required) {
        (Some(exclude), Some(required)) => starts_with(name, required) && !starts_with(name, exclude),
        (None, Some(required)) => starts_with(name, required),
        (Some(exclude), None) => !starts_with(name, exclude),
        (None, None) => true,
    }
}

/// With neither a required nor an exclude prefix, every name passes.
pub proof fn lemma_no_filter_passes_all(name: Seq<char>)
    ensures
        passes(name, None, None),
{
}

/// A name that does not start with the required prefix never passes, when no
/// exclude prefix is given.
pub proof fn lemma_missing_required_prefix(name: Seq<char>, required: Seq<char>)
    requires
        !is_prefix(required, name),
    ensures
        !passes(name, None, Some(required)),
{
}

/// Exclusion wins: a name that starts with both the required and the exclude
/// prefix does not pass.
pub proof fn lemma_exclude_wins(name: Seq<char>, exclude: Seq<char>, required: Seq<char>)
    requires
        is_prefix(required, name),
        is_prefix(exclude, name),
    ensures
        !passes(name, Some(exclude), Some(required)),
{
}

} // verus!
