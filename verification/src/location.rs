//! Storage-location resolution.
//!
//! A database lives at `<root>/<format-version>-<channel>/db.sqlite`.
//! The format-version prefix keeps incompatible on-disk layouts in
//! separate directories: a new layout simply starts from a fresh,
//! empty directory instead of migrating the old one.  The prefix is
//! fixed at a single value here; rotating or clearing old directories
//! would be a separate feature.

use vstd::prelude::*;

verus! {

/// Directory name for a channel: the fixed format-version prefix,
/// a dash, then the channel name.
pub open spec fn dir_name_spec(channel: Seq<char>) -> Seq<char> {
    "0-"@ + channel
}

/// Full path of the database file for a root directory and a channel.
pub open spec fn db_path_spec(root: Seq<char>, channel: Seq<char>) -> Seq<char> {
    root + "/"@ + dir_name_spec(channel) + "/db.sqlite"@
}

/// The versioned subdirectory name under the storage root that holds
/// the database for `channel`.
pub fn storage_dir_name(channel: &str) -> (r: String)
    ensures
        r@ == dir_name_spec(channel@),
{
    let mut s = "0-".to_owned();
    s.push_str(channel);
    s
}

/// The full path of the database file for `root` and `channel`.
pub fn db_file_path(root: &str, channel: &str) -> (r: String)
    ensures
        r@ == db_path_spec(root@, channel@),
{
    let mut s = root.to_owned();
    s.push_str("/");
    let dir = storage_dir_name(channel);
    s.push_str(dir.as_str());
    s.push_str("/db.sqlite");
    proof {
        assert(s@ =~= db_path_spec(root@, channel@));
    }
    s
}

} // verus!
