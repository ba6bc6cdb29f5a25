//! Binary location: finds the one executable in an unpacked tree whose
//! file name contains the tool's name, and fails on none or on two.
use vstd::prelude::*;

use crate::sniff::{detect_binary, is_binary_content};
use crate::text::{contains, has_substring};

verus! {

/// A regular file of an unpacked tree: its full path, its file name and
/// its content. A walk of the tree lists them depth first.
#[derive(Clone, Debug, PartialEq, Eq)]
pub struct FileEntry {
    pub path: String,
    pub name: String,
    pub content: Vec<u8>,
}

/// Why no single binary could be chosen.
#[derive(Clone, Debug, PartialEq, Eq)]
pub enum LocateError {
    /// No file matched the name.
    NotFound { name: String },
    /// Two files matched; `first` and `second` are the first two found.
    Ambiguous { name: String, first: String, second: String },
}

/// The file's name contains `name` and its content sniffs as an executable.
pub open spec fn is_candidate(e: FileEntry, name: Seq<char>) -> bool {
    has_substring(e.name@, name) && is_binary_content(e.content@)
}

/// The candidate at `i` is the only one among the first `upto` files.
pub open spec fn sole_candidate_below(files: Seq<FileEntry>, name: Seq<char>, i: int, upto: int) -> bool {
    &&& 0 <= i < upto
    &&& is_candidate(files[i], name)
    &&& forall|k: int| 0 <= k < upto && k != i ==> !is_candidate(#[trigger] files[k], name)
}

/// Searches the files of an unpacked tree, in order, for a binary whose
/// file name contains `name`. Returns its path when exactly one file
/// matches; stops at the second match and reports both paths.
pub fn search_archive(files: &Vec<FileEntry>, name: &str) -> (r: Result<String, LocateError>)
    ensures
        match r {
            Ok(p) => exists|i: int|
                sole_candidate_below(files@, name@, i, files@.len() as int) && p@ == (
                #[trigger] files@[i]).path@,
            Err(LocateError::NotFound { name: n }) => {
                &&& n@ == name@
                &&& forall|k: int|
                    0 <= k < files@.len() ==> !is_candidate(#[trigger] files@[k], name@)
            },
            Err(LocateError::Ambiguous { name: n, first, second }) => exists|i: int, j: int|
                #![trigger files@[i], files@[j]]
                {
                    &&& i < j < files@.len()
                    &&& sole_candidate_below(files@, name@, i, j)
                    &&& is_candidate(files@[j], name@)
                    &&& first@ == files@[i].path@
                    &&& second@ == files@[j].path@
                    &&& n@ == name@
                },
        },
{
    let mut found: Option<usize> = None;
    let mut i: usize = 0;
    while i < files.len()
        invariant
            i <= files@.len(),
            match found {
                None => forall|k: int| 0 <= k < i ==> !is_candidate(#[trigger] files@[k], name@),
                Some(j) => sole_candidate_below(files@, name@, j as int, i as int),
            },
        decreases files@.len() - i,
    {
        let entry = &files[i];
        if contains(entry.name.as_str(), name) && detect_binary(entry.content.as_slice()) {
            match found {
                Some(j) => {
                    return Err(
                        LocateError::Ambiguous {
                            name: name.to_owned(),
                            first: files[j].path.clone(),
                            second: entry.path.clone(),
                        },
                    );
                },
                None => {
                    found = Some(i);
                },
            }
        }
        i = i + 1;
    }
    match found {
        Some(j) => Ok(files[j].path.clone()),
        None => Err(LocateError::NotFound { name: name.to_owned() }),
    }
}

} // verus!
