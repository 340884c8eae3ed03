//! File paths, held as UTF-8 strings, and the few operations of
//! `std::path` that the library builds them with.
use vstd::prelude::*;

verus! {

/// What `Path::with_extension(ext)` makes of `path`.
pub uninterp spec fn path_with_extension(path: Seq<char>, ext: Seq<char>) -> Seq<char>;

/// What `Path::file_stem` gives for `path` (`None`: no file name).
pub uninterp spec fn path_file_stem(path: Seq<char>) -> Option<Seq<char>>;

/// What `Path::with_file_name(name)` makes of `path`.
pub uninterp spec fn path_with_file_name(path: Seq<char>, name: Seq<char>) -> Seq<char>;

/// What `Path::join(part)` makes of `base`.
pub uninterp spec fn path_join(base: Seq<char>, part: Seq<char>) -> Seq<char>;

/// `ext` holds no path separator (neither a slash nor a backslash).
pub open spec fn no_separator(ext: Seq<char>) -> bool {
    forall|i: int| 0 <= i < ext.len() ==> #[trigger] ext[i] != '/' && ext[i] != '\\'
}

/// `std::path::Path::with_extension`: `path` with its extension replaced by
/// (or, without one, extended with) `ext`. It panics on an extension that
/// holds a path separator, which `requires` leaves out. The result is named,
/// not stated.
#[verifier::external_body]
pub fn with_extension(path: &str, ext: &str) -> (r: String)
    requires
        no_separator(ext@),
    ensures
        r@ == path_with_extension(path@, ext@),
{
    std::path::Path::new(path).with_extension(ext).to_string_lossy().into_owned()
}

/// `std::path::Path::file_stem`: the file name of `path` without its last
/// extension, when `path` has a file name. The result is named, not stated.
#[verifier::external_body]
pub fn file_stem(path: &str) -> (r: Option<String>)
    ensures
        match r {
            Some(s) => path_file_stem(path@) == Some(s@),
            None => path_file_stem(path@) is None,
        },
{
    std::path::Path::new(path).file_stem().map(|s| s.to_string_lossy().into_owned())
}

/// `std::path::Path::with_file_name`: `path` with its file name replaced by
/// `name`. The result is named, not stated.
#[verifier::external_body]
pub fn with_file_name(path: &str, name: &str) -> (r: String)
    ensures
        r@ == path_with_file_name(path@, name@),
{
    std::path::Path::new(path).with_file_name(name).to_string_lossy().into_owned()
}

/// `std::path::Path::join`: `part` appended to `base` as a path. The result
/// is named, not stated.
#[verifier::external_body]
pub fn join(base: &str, part: &str) -> (r: String)
    ensures
        r@ == path_join(base@, part@),
{
    std::path::Path::new(base).join(part).to_string_lossy().into_owned()
}

} // verus!
