//! Files as the library knows them.
use vstd::prelude::*;

verus! {

/// A file, by its index in the [`crate::paths::PathTable`]. Two ids are equal
/// exactly when they name the same path of the same source.
pub type FileId = u64;

/// The position of the first `file` in `files`.
pub fn find_file(files: &Vec<FileId>, file: FileId) -> (found: Option<usize>)
    ensures
        match found {
            Some(i) => files@.index_of_first(file) == Some(i as int) && i < files@.len()
                && files@[i as int] == file,
            None => files@.index_of_first(file) is None && !files@.contains(file),
        },
{
    let mut i: usize = 0;
    while i < files.len()
        invariant
            i <= files@.len(),
            forall|j: int| 0 <= j < i ==> files@[j] != file,
        decreases files@.len() - i,
    {
        if files[i] == file {
            proof {
                files@.index_of_first_ensures(file);
            }
            return Some(i);
        }
        i = i + 1;
    }
    proof {
        files@.index_of_first_ensures(file);
    }
    None
}

} // verus!
