//! Paths as text, and the two questions about them that are left to
//! `std::path`.

use vstd::prelude::*;

verus! {

/// The contents of a list of strings, entry by entry.
pub open spec fn texts(v: Seq<String>) -> Seq<Seq<char>> {
    v.map_values(|s: String| s@)
}

/// What `std::path::Path::join` makes of `base` and `rel`, on the platform
/// that the crate is built for.
pub uninterp spec fn joined_path(base: Seq<char>, rel: Seq<char>) -> Seq<char>;

/// The extension that `std::path::Path::extension` finds in `path`, if any,
/// on the platform that the crate is built for.
pub uninterp spec fn extension_of(path: Seq<char>) -> Option<Seq<char>>;

/// Calls `std::path::Path::join` on two paths given as text. Both are valid
/// UTF-8, so the joined path is too, and comes back as text. The contract is
/// not proved. It only gives the result its name: how two paths are joined
/// is std's business.
#[verifier::external_body]
pub(crate) fn join_path(base: &str, rel: &str) -> (joined: String)
    ensures
        joined@ == joined_path(base@, rel@),
{
    std::path::Path::new(base).join(rel).to_string_lossy().into_owned()
}

/// Calls `std::path::Path::extension` on a path given as text. The extension
/// is a piece of the path, hence valid UTF-8. The contract is not proved. It
/// only gives the result its name.
#[verifier::external_body]
pub(crate) fn path_extension(path: &str) -> (ext: Option<String>)
    ensures
        match ext {
            Some(e) => extension_of(path@) == Some(e@),
            None => extension_of(path@).is_none(),
        },
{
    std::path::Path::new(path).extension().map(|e| e.to_string_lossy().into_owned())
}

/// Appending one string to a list appends its contents to the list's contents.
pub proof fn lemma_texts_push(v: Seq<String>, s: String)
    ensures
        texts(v.push(s)) == texts(v).push(s@),
{
    assert(texts(v.push(s)) =~= texts(v).push(s@));
}

/// The contents of two lists joined are the two lists' contents joined.
pub proof fn lemma_texts_add(a: Seq<String>, b: Seq<String>)
    ensures
        texts(a + b) == texts(a) + texts(b),
{
    assert(texts(a + b) =~= texts(a) + texts(b));
}

} // verus!
