//! Plain descriptors for files and directory entries, as the UI layer
//! receives them.

use vstd::prelude::*;

verus! {

/// Name, path and size of one file.
#[derive(Clone, PartialEq, Eq, Debug)]
pub struct FileInfo {
    pub path: String,
    pub name: String,
    pub size: u64,
}

/// One entry of a directory listing.
#[derive(PartialEq, Eq, Debug)]
pub struct FileEntry {
    pub path: String,
    pub name: String,
    pub is_directory: bool,
    pub is_parquet: bool,
    pub size: Option<u64>,
    pub children: Option<Vec<FileEntry>>,
}

/// The container file suffix.
pub open spec fn parquet_suffix() -> Seq<char> {
    seq!['.', 'p', 'a', 'r', 'q', 'u', 'e', 't']
}

/// Whether a listing entry counts as a container file: not a directory,
/// and its path ends in the container suffix.
pub open spec fn is_parquet_path(path: Seq<char>, is_directory: bool) -> bool {
    &&& !is_directory
    &&& path.len() >= 8
    &&& path.subrange(path.len() - 8, path.len() as int) == parquet_suffix()
}

/// Decides whether a listing entry counts as a container file.
pub fn path_is_parquet(path: &String, is_directory: bool) -> (r: bool)
    ensures
        r == is_parquet_path(path@, is_directory),
{
    if is_directory {
        return false;
    }
    let s = path.as_str();
    let n = s.unicode_len();
    if n < 8 {
        return false;
    }
    let suffix: [char; 8] = ['.', 'p', 'a', 'r', 'q', 'u', 'e', 't'];
    let mut i: usize = 0;
    while i < 8
        invariant
            s@ == path@,
            n == path@.len(),
            8 <= n,
            i <= 8,
            forall|j: int| 0 <= j < i ==> path@[n - 8 + j] == parquet_suffix()[j],
            suffix@ == parquet_suffix(),
        decreases 8 - i,
    {
        let c = s.get_char(n - 8 + i);
        if c != suffix[i] {
            assert(path@[n - 8 + i as int] != parquet_suffix()[i as int]);
            return false;
        }
        i = i + 1;
    }
    assert(path@.subrange(path@.len() - 8, path@.len() as int) =~= parquet_suffix());
    true
}

} // verus!
