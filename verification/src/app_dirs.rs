//! The application's own folder inside the user's config and data
//! directories, and the adoption of a folder whose name differs only by
//! letter case (so models and settings survive a rename of the application).
use vstd::prelude::*;

use crate::paths::{join, path_join};
use crate::text::{eq_ignore_ascii_case, eq_ignore_case, str_eq};

verus! {

/// Folder name of the application's config and data directories.
pub const APP_DIR: &'static str = "light-gen-subz";

/// `<base>/light-gen-subz`.
pub fn app_dir_path(base: &str) -> (r: String)
    ensures
        r@ == path_join(base@, APP_DIR@),
{
    join(base, APP_DIR)
}

/// `entry` is a case variant of `name`: a different name, equal to it apart
/// from ASCII letter case.
pub open spec fn is_case_variant(entry: Seq<char>, name: Seq<char>) -> bool {
    entry != name && eq_ignore_case(entry, name)
}

/// The first of `entries` (directory entry names, in listing order) that is
/// a case variant of `name`.
pub fn case_variant_index(entries: &[String], name: &str) -> (r: Option<usize>)
    ensures
        r matches Some(i) ==> i < entries@.len() && is_case_variant(entries@[i as int]@, name@) && forall|j: int|
            0 <= j < i ==> !is_case_variant(#[trigger] entries@[j]@, name@),
        r is None ==> forall|j: int| 0 <= j < entries@.len() ==> !is_case_variant(#[trigger] entries@[j]@, name@),
{
    let mut i: usize = 0;
    while i < entries.len()
        invariant
            i <= entries@.len(),
            forall|j: int| 0 <= j < i ==> !is_case_variant(#[trigger] entries@[j]@, name@),
        decreases entries@.len() - i,
    {
        let entry = entries[i].as_str();
        if !str_eq(entry, name) && eq_ignore_ascii_case(entry, name) {
            return Some(i);
        }
        i = i + 1;
    }
    None
}

/// The entry to rename into the application's folder: none when the folder
/// already exists (then both spellings stay as they are), else the first
/// case variant of its name among `entries`.
pub fn folder_to_adopt(current_exists: bool, entries: &[String]) -> (r: Option<usize>)
    ensures
        current_exists ==> r is None,
        !current_exists ==> match r {
            Some(i) => i < entries@.len() && is_case_variant(entries@[i as int]@, APP_DIR@) && forall|j: int|
                0 <= j < i ==> !is_case_variant(#[trigger] entries@[j]@, APP_DIR@),
            None => forall|j: int| 0 <= j < entries@.len() ==> !is_case_variant(#[trigger] entries@[j]@, APP_DIR@),
        },
{
    if current_exists {
        None
    } else {
        case_variant_index(entries, APP_DIR)
    }
}

} // verus!
