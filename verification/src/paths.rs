//! Where a note's file stands: `<data_dir>/<identity>.json`.

use crate::identity::{identity_string, identity_text};
use vstd::prelude::*;
use vstd::string::*;

verus! {

/// `name` placed inside the directory `dir`: the two with one `/` between
/// them, which is left out where `dir` is empty or already ends in one.
pub open spec fn joined(dir: Seq<char>, name: Seq<char>) -> Seq<char> {
    if dir.len() == 0 || dir.last() == '/' {
        dir + name
    } else {
        dir + seq!['/'] + name
    }
}

/// The ending of every note file's name.
pub open spec fn extension() -> Seq<char> {
    seq!['.', 'j', 's', 'o', 'n']
}

/// The name of the file that holds the note `id`.
pub open spec fn file_name(id: u128) -> Seq<char> {
    identity_text(id) + extension()
}

/// The path of the note `id` in the data directory `dir`. It depends on
/// nothing else.
pub open spec fn storage_path(dir: Seq<char>, id: u128) -> Seq<char> {
    joined(dir, file_name(id))
}

/// Places `name` inside the directory `dir`.
pub fn join(dir: &str, name: &str) -> (path: String)
    ensures
        path@ == joined(dir@, name@),
{
    let len: usize = dir.unicode_len();
    let mut path = String::from_str(dir);
    if len > 0 && dir.get_char(len - 1) != '/' {
        proof {
            reveal_strlit("/");
        }
        path.append("/");
    }
    path.append(name);
    path
}

/// Computes the path of the note `id` in the data directory `dir`.
pub fn note_path(dir: &str, id: u128) -> (path: String)
    ensures
        path@ == storage_path(dir@, id),
{
    let mut name = identity_string(id);
    proof {
        reveal_strlit(".json");
    }
    name.append(".json");
    join(dir, name.as_str())
}

} // verus!
