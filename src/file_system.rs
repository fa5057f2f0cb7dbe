use vstd::prelude::*;
use vstd::string::*;

verus! {

/// Whether a path names a usable directory, from what the file system said
/// of it: it is a directory and either has a final name component or can be
/// normalized.
pub fn is_existing_dir(is_dir: bool, has_file_name: bool, normalizes: bool) -> (r: bool)
    ensures
        r == (is_dir && (has_file_name || normalizes)),
{
    is_dir && (has_file_name || normalizes)
}

} // verus!

verus! {

/// What is left of `path` once the leading components equal to `base` are
/// removed, as `std::path::Path::strip_prefix` gives it; `None` when `base`
/// is not a prefix of `path`.
pub uninterp spec fn path_without_prefix(path: Seq<char>, base: Seq<char>) -> Option<Seq<char>>;

/// Relies on `std::path::Path::strip_prefix` (component-wise prefix
/// removal); the rest is a `&str` path, so its conversion back is lossless.
#[verifier::external_body]
fn strip_path_prefix(path: &str, base: &str) -> (r: Option<String>)
    ensures
        match path_without_prefix(path@, base@) {
            Some(rest) => r is Some && r->Some_0@ == rest,
            None => r is None,
        },
{
    std::path::Path::new(path).strip_prefix(base).ok().map(|p| p.to_string_lossy().into_owned())
}

/// The path relative to the working directory, if it lies inside it.
pub fn get_relative_path(path: &str, cwd: Option<&str>) -> (r: Option<String>)
    ensures
        match cwd {
            Some(c) => match path_without_prefix(path@, c@) {
                Some(rest) => r is Some && r->Some_0@ == rest,
                None => r is None,
            },
            None => r is None,
        },
{
    match cwd {
        Some(c) => strip_path_prefix(path, c),
        None => None,
    }
}

/// How a found path is reported: relative to the working directory when it
/// lies inside it, else in full.
pub fn display_path(path: &str, cwd: Option<&str>) -> (r: String)
    ensures
        r@ == match cwd {
            Some(c) => match path_without_prefix(path@, c@) {
                Some(rest) => rest,
                None => path@,
            },
            None => path@,
        },
{
    match get_relative_path(path, cwd) {
        Some(rest) => rest,
        None => String::from_str(path),
    }
}

} // verus!
