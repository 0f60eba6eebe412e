//! Path arithmetic on descriptor and license locations.
use vstd::prelude::*;

verus! {

/// What `PathBuf::pop` leaves of a path: the path without its last component.
pub uninterp spec fn parent_path(p: Seq<char>) -> Seq<char>;

/// What `PathBuf::push` makes of a base path and a further path.
pub uninterp spec fn joined_path(base: Seq<char>, p: Seq<char>) -> Seq<char>;

/// The final component of a path, as `Path::file_name` gives it.
pub uninterp spec fn file_name_part(p: Seq<char>) -> Option<Seq<char>>;

/// A path whose extension `Path::set_extension` replaced.
pub uninterp spec fn extension_replaced(p: Seq<char>, ext: Seq<char>) -> Seq<char>;

/// Relies on `std::path::PathBuf::pop`: the result depends on the path alone.
#[verifier::external_body]
fn pop_component(p: &String) -> (r: String)
    ensures
        r@ == parent_path(p@),
{
    let mut b = std::path::PathBuf::from(p);
    b.pop();
    b.to_string_lossy().into_owned()
}

/// Relies on `std::path::PathBuf::push`: the result depends on both paths alone.
#[verifier::external_body]
fn push_path(base: &String, p: &String) -> (r: String)
    ensures
        r@ == joined_path(base@, p@),
{
    let mut b = std::path::PathBuf::from(base);
    b.push(p);
    b.to_string_lossy().into_owned()
}

/// Relies on `std::path::Path::file_name`: `None` when the path ends in `..`
/// or is a root; the result depends on the path alone.
#[verifier::external_body]
fn file_name_of(p: &String) -> (r: Option<String>)
    ensures
        r matches Some(n) ==> file_name_part(p@) == Some(n@),
        r is None <==> file_name_part(p@) is None,
{
    std::path::Path::new(p).file_name().map(|n| n.to_string_lossy().into_owned())
}

/// Relies on `std::path::PathBuf::set_extension`: the result depends on the
/// path and the extension alone. It panics on an extension that holds a path
/// separator, which is therefore excluded.
#[verifier::external_body]
fn set_extension_of(p: &String, ext: &str) -> (r: String)
    requires
        forall|i: int| 0 <= i < ext@.len() ==> ext@[i] != '/' && ext@[i] != '\\',
    ensures
        r@ == extension_replaced(p@, ext@),
{
    let mut b = std::path::PathBuf::from(p);
    b.set_extension(ext);
    b.to_string_lossy().into_owned()
}

/// `path` taken relative to the directory that holds `base`.
pub open spec fn resolved(base: Seq<char>, path: Seq<char>) -> Seq<char> {
    joined_path(parent_path(base), path)
}

/// Name of the subdirectory, beside the root descriptor, that receives the report.
pub const GENERATED_DIR: &'static str = "generated";

/// Extension that replaces the root descriptor's own in the report's file name.
pub const NOTICES_EXTENSION: &'static str = "NOTICES.txt";

/// Where the report for the root descriptor at `root` is written, given the
/// root's file name.
pub open spec fn notices_location(root: Seq<char>, name: Seq<char>) -> Seq<char> {
    resolved(
        root,
        extension_replaced(joined_path(GENERATED_DIR@, name), NOTICES_EXTENSION@),
    )
}

/// Resolves `path` relative to the directory of the file at `base`.
pub fn resolve_file(base: &String, path: &String) -> (r: String)
    ensures
        r@ == resolved(base@, path@),
{
    let dir = pop_component(base);
    push_path(&dir, path)
}

/// The report file for the root descriptor at `root`: `None` when `root` has
/// no file name.
pub fn notices_path(root: &String) -> (r: Option<String>)
    ensures
        r is None <==> file_name_part(root@) is None,
        r matches Some(p) ==> p@ == notices_location(root@, file_name_part(root@)->Some_0),
{
    match file_name_of(root) {
        None => None,
        Some(name) => {
            let dir = String::from_str(GENERATED_DIR);
            let inner = push_path(&dir, &name);
            proof {
                reveal_strlit("NOTICES.txt");
            }
            let named = set_extension_of(&inner, NOTICES_EXTENSION);
            Some(resolve_file(root, &named))
        },
    }
}

} // verus!
