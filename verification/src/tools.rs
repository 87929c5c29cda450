//! Where a fetched tool goes, and the search path after it was fetched.

use vstd::prelude::*;
use crate::text::opt_text;

verus! {

/// The directory that a fetched tool is written into: the one that holds the
/// running program, if it is known and can be written to, else the working
/// directory.
pub open spec fn fetch_destination_text(
    beside_program: Option<Seq<char>>,
    writable: bool,
    working_dir: Seq<char>,
) -> Seq<char> {
    match beside_program {
        Some(dir) => if writable {
            dir
        } else {
            working_dir
        },
        None => working_dir,
    }
}

/// Chooses the directory that a fetched tool is written into. `writable`
/// says whether `beside_program` can be written to. The caller hands both
/// directories over as absolute paths, so that the tool's own path is
/// absolute too.
pub fn fetch_destination(
    beside_program: Option<&str>,
    writable: bool,
    working_dir: &str,
) -> (r: String)
    ensures
        r@ == fetch_destination_text(opt_text(beside_program), writable, working_dir@),
{
    match beside_program {
        Some(dir) => {
            if writable {
                String::from_str(dir)
            } else {
                String::from_str(working_dir)
            }
        },
        None => String::from_str(working_dir),
    }
}

/// The search path `current` with `dir` put in front of it. An empty path
/// has no entries: the result is then `dir` alone, with no separator, for an
/// empty entry would stand for the working directory.
pub open spec fn prepended(dir: Seq<char>, current: Seq<char>) -> Seq<char> {
    if current.len() == 0 {
        dir
    } else {
        dir + seq![':'] + current
    }
}

/// Puts the directory of a fetched tool in front of the search path, so that
/// the tool is found by name from then on. Nothing is taken out of the path,
/// and exactly one entry is added to it.
pub fn prepend_search_path(dir: &str, current: &str) -> (r: String)
    ensures
        r@ == prepended(dir@, current@),
{
    let mut r = String::from_str(dir);
    if current.unicode_len() > 0 {
        proof {
            reveal_strlit(":");
        }
        r.append(":");
        assert(":"@ =~= seq![':']);
        r.append(current);
    }
    r
}

} // verus!
