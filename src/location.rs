//! Where the document file lives.

use vstd::prelude::*;

verus! {

/// The name of the document file inside the storage root.
pub const DOCUMENT_FILE_NAME: &'static str = "grade_data.json";

/// The text of the path that `std::path::Path::join` makes of a directory and a
/// name. It depends on the two texts alone (and on the target's path syntax,
/// fixed when the crate is compiled).
pub uninterp spec fn joined_path(dir: Seq<char>, name: Seq<char>) -> Seq<char>;

/// The path of the document file for a given storage root.
pub open spec fn document_path_of(root: Seq<char>) -> Seq<char> {
    joined_path(root, DOCUMENT_FILE_NAME@)
}

/// Relies on `std::path::Path::join`, which extends the directory with the name.
/// Both parts are UTF-8 text, so turning the joined path back into text loses
/// nothing.
#[verifier::external_body]
fn join_path(dir: &str, name: &str) -> (r: String)
    ensures
        r@ == joined_path(dir@, name@),
{
    std::path::Path::new(dir).join(name).to_string_lossy().into_owned()
}

/// The path of the document file inside the storage root `root`, as text.
/// It depends on `root` alone: the same root always gives the same path.
pub fn document_path(root: &str) -> (r: String)
    ensures
        r@ == document_path_of(root@),
{
    join_path(root, DOCUMENT_FILE_NAME)
}

} // verus!
