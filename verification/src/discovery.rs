//! Discovery: turning directory listings into the project's overrides and
//! pods. The listings themselves are filesystem work done outside the
//! library; they arrive here as plain [`DirEntry`] values, in listing order.
//!
//! Overrides are the directories directly under `pods/overrides/`; pods are
//! the `*.yml` files directly under `pods/`, named by their file stem.
//! Neither scan recurses, and the resulting order is the listing order.

use vstd::prelude::*;
use vstd::string::*;

use crate::model::{Override, Pod};

verus! {

/// One entry of a directory listing, reduced to what discovery reads: its
/// base name and whether it is a directory.
pub struct DirEntry {
    pub name: String,
    pub is_dir: bool,
}

/// The override names a listing of `pods/overrides/` yields: the name of
/// every directory entry, in listing order.
pub open spec fn override_names(entries: Seq<DirEntry>) -> Seq<Seq<char>>
    decreases entries.len(),
{
    if entries.len() == 0 {
        Seq::empty()
    } else {
        let rest = override_names(entries.drop_last());
        if entries.last().is_dir {
            rest.push(entries.last().name@)
        } else {
            rest
        }
    }
}

/// The `.yml` file extension, as a sequence of characters.
pub open spec fn yml_suffix() -> Seq<char> {
    seq!['.', 'y', 'm', 'l']
}

/// Whether an entry name is a pod definition file name: a nonempty stem
/// followed by `.yml`.
pub open spec fn is_pod_file_name(name: Seq<char>) -> bool {
    name.len() > 4 && name.subrange(name.len() - 4, name.len() as int) == yml_suffix()
}

/// The stem of a pod definition file name: the name with `.yml` stripped.
pub open spec fn pod_stem(name: Seq<char>) -> Seq<char> {
    name.subrange(0, name.len() - 4)
}

/// The pod names a listing of `pods/` yields: the stem of every entry named
/// `<stem>.yml`, in listing order.
pub open spec fn pod_names(entries: Seq<DirEntry>) -> Seq<Seq<char>>
    decreases entries.len(),
{
    if entries.len() == 0 {
        Seq::empty()
    } else {
        let rest = pod_names(entries.drop_last());
        if is_pod_file_name(entries.last().name@) {
            rest.push(pod_stem(entries.last().name@))
        } else {
            rest
        }
    }
}

/// The stem of `name` if it names a pod definition file, and nothing
/// otherwise.
pub fn pod_file_stem(name: &str) -> (r: Option<String>)
    ensures
        r is Some <==> is_pod_file_name(name@),
        r matches Some(s) ==> s@ == pod_stem(name@),
{
    let n = name.unicode_len();
    if n <= 4 {
        return None;
    }
    let matches_suffix = name.get_char(n - 4) == '.' && name.get_char(n - 3) == 'y'
        && name.get_char(n - 2) == 'm' && name.get_char(n - 1) == 'l';
    if matches_suffix {
        proof {
            assert(name@.subrange(name@.len() - 4, name@.len() as int) =~= yml_suffix());
        }
        Some(name.substring_char(0, n - 4).to_owned())
    } else {
        proof {
            assert(name@.subrange(name@.len() - 4, name@.len() as int) != yml_suffix()) by {
                let sub = name@.subrange(name@.len() - 4, name@.len() as int);
                if sub == yml_suffix() {
                    assert(sub[0] == '.' && sub[1] == 'y' && sub[2] == 'm' && sub[3] == 'l');
                }
            }
        }
        None
    }
}

/// Create an [`Override`] for every directory in a listing of
/// `pods/overrides/`, in listing order. Non-directory entries are ignored.
pub fn find_overrides(entries: &Vec<DirEntry>) -> (r: Vec<Override>)
    ensures
        r@.map_values(|o: Override| o@) == override_names(entries@),
{
    let mut out: Vec<Override> = Vec::new();
    let mut i: usize = 0;
    while i < entries.len()
        invariant
            i <= entries@.len(),
            out@.map_values(|o: Override| o@) == override_names(entries@.subrange(0, i as int)),
        decreases entries@.len() - i,
    {
        proof {
            assert(entries@.subrange(0, i + 1).drop_last() =~= entries@.subrange(0, i as int));
            assert(entries@.subrange(0, i + 1).last() == entries@[i as int]);
        }
        if entries[i].is_dir {
            let name = entries[i].name.clone();
            out.push(Override::new(name));
        }
        proof {
            assert(out@.map_values(|o: Override| o@) =~= override_names(
                entries@.subrange(0, i + 1),
            ));
        }
        i += 1;
    }
    proof {
        assert(entries@.subrange(0, entries@.len() as int) =~= entries@);
    }
    out
}

/// Create a [`Pod`] for every `*.yml` entry in a listing of `pods/`, named
/// by its file stem, in listing order. Other entries are ignored.
/// Validating what a pod's file says about the overrides is collaborator
/// work done outside the library.
pub fn find_pods(entries: &Vec<DirEntry>) -> (r: Vec<Pod>)
    ensures
        r@.map_values(|p: Pod| p@) == pod_names(entries@),
{
    let mut out: Vec<Pod> = Vec::new();
    let mut i: usize = 0;
    while i < entries.len()
        invariant
            i <= entries@.len(),
            out@.map_values(|p: Pod| p@) == pod_names(entries@.subrange(0, i as int)),
        decreases entries@.len() - i,
    {
        proof {
            assert(entries@.subrange(0, i + 1).drop_last() =~= entries@.subrange(0, i as int));
            assert(entries@.subrange(0, i + 1).last() == entries@[i as int]);
        }
        match pod_file_stem(entries[i].name.as_str()) {
            Some(stem) => {
                out.push(Pod::new(stem));
            },
            None => {},
        }
        proof {
            assert(out@.map_values(|p: Pod| p@) =~= pod_names(entries@.subrange(0, i + 1)));
        }
        i += 1;
    }
    proof {
        assert(entries@.subrange(0, entries@.len() as int) =~= entries@);
    }
    out
}

} // verus!
