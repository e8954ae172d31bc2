//! The count of mod archives in an instance's mods directory.

use vstd::prelude::*;
use crate::text::to_chars;

verus! {

/// Whether a directory entry of this name counts as a mod archive: the
/// name ends in `.jar`, in these very letters, and has something before it.
pub open spec fn is_mod_archive(file_name: Seq<char>) -> bool {
    file_name.len() > 4 && file_name.skip(file_name.len() - 4) == ".jar"@
}

/// The number of mod archives among the first `upto` names.
pub open spec fn mod_count(file_names: Seq<String>, upto: int) -> nat
    decreases upto,
{
    if upto <= 0 {
        0
    } else if is_mod_archive(file_names[upto - 1]@) {
        mod_count(file_names, upto - 1) + 1
    } else {
        mod_count(file_names, upto - 1)
    }
}

/// Whether a directory entry of this name counts as a mod archive.
pub fn has_mod_extension(file_name: &str) -> (r: bool)
    ensures
        r == is_mod_archive(file_name@),
{
    let chars = to_chars(file_name);
    let n: usize = chars.len();
    proof {
        reveal_strlit(".jar");
    }
    if n <= 4 {
        return false;
    }
    let r = chars[n - 4] == '.' && chars[n - 3] == 'j' && chars[n - 2] == 'a' && chars[n - 1]
        == 'r';
    proof {
        let tail = file_name@.skip(n - 4);
        assert(tail.len() == 4);
        assert(tail[0] == chars@[n - 4] && tail[1] == chars@[n - 3] && tail[2] == chars@[n - 2]
            && tail[3] == chars@[n - 1]);
        if r {
            assert(tail =~= ".jar"@);
        }
    }
    r
}

/// The number of mod archives among the entries of a mods directory, given
/// by their file names.
pub fn count_mods(file_names: &Vec<String>) -> (r: usize)
    ensures
        r == mod_count(file_names@, file_names@.len() as int),
{
    let mut count: usize = 0;
    let mut i: usize = 0;
    while i < file_names.len()
        invariant
            i <= file_names.len(),
            count == mod_count(file_names@, i as int),
            count <= i,
        decreases file_names.len() - i,
    {
        if has_mod_extension(file_names[i].as_str()) {
            count += 1;
        }
        i += 1;
    }
    count
}

} // verus!
