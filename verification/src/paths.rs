use vstd::prelude::*;

verus! {

/// `relative` adjoined to `base` as `Path::join` does it on Unix for a path that does not
/// begin with the root: a separator is put between them unless `base` is empty or already
/// ends with one.
pub open spec fn adjoin(base: Seq<char>, relative: Seq<char>) -> Seq<char> {
    if base.len() == 0 || base.last() == '/' {
        base + relative
    } else {
        base + seq!['/'] + relative
    }
}

/// What `Path::starts_with` answers for these two paths: whether the components of `base`
/// are the first components of `path`.
pub uninterp spec fn path_starts_with(path: Seq<char>, base: Seq<char>) -> bool;

/// Calls `std::path::Path::join`. Its contract states what the documentation of
/// `PathBuf::push` says of a relative path on Unix (where the separator is '/'): the path is
/// extended, with a separator added if needed. The result of joining UTF-8 paths is UTF-8,
/// so the lossy conversion back to a string loses nothing.
#[verifier::external_body]
pub(crate) fn path_join(base: &str, relative: &str) -> (joined: String)
    requires
        !(relative@.len() > 0 && relative@[0] == '/'),
    ensures
        joined@ == adjoin(base@, relative@),
{
    std::path::Path::new(base).join(relative).to_string_lossy().into_owned()
}

/// Calls `std::path::Path::starts_with`, which compares whole path components; its result is
/// named. One fact of it is stated: a path made by adjoining a relative path (one that does not
/// begin with '/') to `base` begins with the components of `base`, since on Unix (the only
/// platform for which these contracts are stated, as for `path_join`) adjoining
/// keeps every component of `base` and adds those of the relative path after them. What the
/// prefix test answers for other paths is left unsaid.
#[verifier::external_body]
pub(crate) fn path_has_prefix(path: &str, base: &str) -> (within: bool)
    ensures
        within == path_starts_with(path@, base@),
        (exists|relative: Seq<char>|
            !(relative.len() > 0 && relative[0] == '/') && path@ == #[trigger] adjoin(
                base@,
                relative,
            )) ==> within,
{
    std::path::Path::new(path).starts_with(base)
}

} // verus!
