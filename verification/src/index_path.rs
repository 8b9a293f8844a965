//! Mapping of a package name to its registry index subpath.
//!
//! The registry index places the file describing a package at a subpath
//! determined by the length of the package name: `1/a`, `2/aa`, `3/r/ryu`,
//! `se/rd/serde`.

use vstd::prelude::*;
use vstd::string::*;

verus! {

/// The index subpath prescribed for a package name: names of length 1, 2 and
/// 3 go under `1/`, `2/` and `3/<first char>/`; longer names go under
/// `<first two>/<next two>/`.
pub open spec fn index_path_spec(name: Seq<char>) -> Seq<char>
    recommends
        name.len() >= 1,
{
    if name.len() == 1 {
        "1/"@ + name
    } else if name.len() == 2 {
        "2/"@ + name
    } else if name.len() == 3 {
        "3/"@ + name.subrange(0, 1) + "/"@ + name
    } else {
        name.subrange(0, 2) + "/"@ + name.subrange(2, 4) + "/"@ + name
    }
}

/// The directory that holds the index file: `index_path_spec` without the
/// final `/<name>` component.
pub open spec fn index_dir_spec(name: Seq<char>) -> Seq<char>
    recommends
        name.len() >= 1,
{
    if name.len() == 1 {
        "1"@
    } else if name.len() == 2 {
        "2"@
    } else if name.len() == 3 {
        "3/"@ + name.subrange(0, 1)
    } else {
        name.subrange(0, 2) + "/"@ + name.subrange(2, 4)
    }
}

/// Maps a package name to the subpath of its file in the registry index.
pub fn name_to_index_path(crate_name: &str) -> (r: String)
    requires
        crate_name.is_ascii(),
        crate_name@.len() >= 1,
    ensures
        r@ == index_path_spec(crate_name@),
{
    let len = crate_name.unicode_len();
    if len == 1 {
        let mut r = String::from_str("1/");
        r.append(crate_name);
        r
    } else if len == 2 {
        let mut r = String::from_str("2/");
        r.append(crate_name);
        r
    } else if len == 3 {
        let mut r = String::from_str("3/");
        r.append(crate_name.substring_ascii(0, 1));
        r.append("/");
        r.append(crate_name);
        proof {
            assert(r@ =~= index_path_spec(crate_name@));
        }
        r
    } else {
        let mut r = String::from_str(crate_name.substring_ascii(0, 2));
        r.append("/");
        r.append(crate_name.substring_ascii(2, 4));
        r.append("/");
        r.append(crate_name);
        proof {
            assert(r@ =~= index_path_spec(crate_name@));
        }
        r
    }
}

/// Maps a package name to the directory that holds its index file.
pub fn name_to_index_dir(crate_name: &str) -> (r: String)
    requires
        crate_name.is_ascii(),
        crate_name@.len() >= 1,
    ensures
        r@ == index_dir_spec(crate_name@),
{
    let len = crate_name.unicode_len();
    if len == 1 {
        String::from_str("1")
    } else if len == 2 {
        String::from_str("2")
    } else if len == 3 {
        let mut r = String::from_str("3/");
        r.append(crate_name.substring_ascii(0, 1));
        proof {
            assert(r@ =~= index_dir_spec(crate_name@));
        }
        r
    } else {
        let mut r = String::from_str(crate_name.substring_ascii(0, 2));
        r.append("/");
        r.append(crate_name.substring_ascii(2, 4));
        proof {
            assert(r@ =~= index_dir_spec(crate_name@));
        }
        r
    }
}

} // verus!
