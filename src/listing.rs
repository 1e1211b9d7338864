use vstd::prelude::*;

use crate::entry::{describes, get_file_info, dated, File, Stat};

verus! {

/// The name of the synthetic entry for the directory itself.
pub open spec fn dot() -> Seq<char> {
    seq!['.']
}

/// The name of the synthetic entry for the parent directory.
pub open spec fn dot_dot() -> Seq<char> {
    seq!['.', '.']
}

/// How many synthetic entries lead a listing.
pub open spec fn synthetic_count(synthetic: Option<(Stat, Stat)>) -> int {
    if synthetic is Some {
        2
    } else {
        0
    }
}

/// Whether a listing gets the synthetic `.` and `..` entries: only when hidden
/// entries are shown and the directory is not one reached by recursion.
pub fn include_synthetic(show_hidden: bool, recursing: bool) -> (r: bool)
    ensures
        r == (show_hidden && !recursing),
{
    show_hidden && !recursing
}

/// Builds the entry list of a directory: the synthetic `.` and `..` records
/// first (from the metadata of the directory and of its parent) when
/// `synthetic` holds them, then one record per child, in the order given.
pub fn get_files(synthetic: Option<(Stat, Stat)>, entries: &Vec<(String, Stat)>) -> (r: Vec<File>)
    ensures
        r@.len() == synthetic_count(synthetic) + entries@.len(),
        synthetic matches Some((here, up)) ==> {
            &&& describes(r@[0]@, dot(), here) &&& dated(r@[0]@, here)
            &&& describes(r@[1]@, dot_dot(), up) &&& dated(r@[1]@, up)
        },
        forall|j: int|
            0 <= j < entries@.len() ==> {
                &&& describes(#[trigger] r@[synthetic_count(synthetic) + j]@, entries@[j].0@, entries@[j].1)
                &&& dated(r@[synthetic_count(synthetic) + j]@, entries@[j].1)
            },
{
    let mut files: Vec<File> = Vec::new();
    match synthetic {
        Some((here, up)) => {
            proof {
                reveal_strlit(".");
                reveal_strlit("..");
            }
            let here_name = String::from_str(".");
            assert(here_name@ == dot());
            files.push(get_file_info(here_name, &here));
            let up_name = String::from_str("..");
            assert(up_name@ == dot_dot());
            files.push(get_file_info(up_name, &up));
        },
        None => {},
    }
    let ghost k = synthetic_count(synthetic);
    assert(files@.len() == k);
    let mut i: usize = 0;
    while i < entries.len()
        invariant
            i <= entries@.len(),
            k == synthetic_count(synthetic),
            files@.len() == k + i,
            synthetic matches Some((here, up)) ==> {
                &&& describes(files@[0]@, dot(), here) &&& dated(files@[0]@, here)
                &&& describes(files@[1]@, dot_dot(), up) &&& dated(files@[1]@, up)
            },
            forall|j: int|
                0 <= j < i ==> {
                    &&& describes(#[trigger] files@[k + j]@, entries@[j].0@, entries@[j].1)
                    &&& dated(files@[k + j]@, entries@[j].1)
                },
        decreases entries@.len() - i,
    {
        let name = entries[i].0.clone();
        let st = entries[i].1;
        let ghost before = files@;
        let f = get_file_info(name, &st);
        files.push(f);
        assert(files@ == before.push(f));
        proof {
            if synthetic is Some {
                assert(files@[0] == before[0]);
                assert(files@[1] == before[1]);
            }
            assert forall|j: int| 0 <= j < i + 1 implies {
                &&& describes(#[trigger] files@[k + j]@, entries@[j].0@, entries@[j].1)
                &&& dated(files@[k + j]@, entries@[j].1)
            } by {
                if j < i {
                    assert(files@[k + j] == before[k + j]);
                }
            }
        }
        i = i + 1;
    }
    files
}

} // verus!
