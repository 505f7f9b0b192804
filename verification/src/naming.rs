//! Destination-path construction: the destination directory string and the
//! entry's base name are concatenated verbatim, with no separator inserted.

use vstd::prelude::*;
use vstd::string::StringExecFns;

verus! {

/// The destination path for one entry: the destination directory string
/// followed immediately by the entry's base name. No path separator is
/// added, so a destination directory without a trailing separator yields a
/// path in which the directory and the name run together.
pub open spec fn dest_path_of(dest_dir: Seq<char>, base_name: Seq<char>) -> Seq<char> {
    dest_dir + base_name
}

/// Builds the destination path for one entry by direct string concatenation.
pub fn dest_path(dest_dir: &str, base_name: &str) -> (r: String)
    ensures
        r@ == dest_path_of(dest_dir@, base_name@),
{
    let mut r = String::from_str(dest_dir);
    r.append(base_name);
    r
}

/// Law: with one destination directory, distinct base names give distinct
/// destination paths. Concatenation to a fixed prefix is injective, so no
/// two distinct entries of one source directory collide in the destination.
pub proof fn lemma_dest_path_injective(dest_dir: Seq<char>, a: Seq<char>, b: Seq<char>)
    requires
        dest_path_of(dest_dir, a) == dest_path_of(dest_dir, b),
    ensures
        a == b,
{
    assert((dest_dir + a).len() == (dest_dir + b).len());
    assert(a.len() == b.len());
    assert forall|i: int| 0 <= i < a.len() implies a[i] == b[i] by {
        assert((dest_dir + a)[dest_dir.len() + i] == a[i]);
        assert((dest_dir + b)[dest_dir.len() + i] == b[i]);
    }
    assert(a =~= b);
}

} // verus!
