//! File-system path arithmetic on path strings.

use vstd::prelude::*;
use crate::text::{concat2, concat3, owned};

verus! {

/// `base` joined with `name` as `Path::join` does on Unix: an absolute
/// `name` replaces `base`; otherwise a `/` separates them unless `base` is
/// empty or already ends in `/`.
pub open spec fn path_join_spec(base: Seq<char>, name: Seq<char>) -> Seq<char> {
    if name.len() > 0 && name[0] == '/' {
        name
    } else if base.len() > 0 && base.last() != '/' {
        base + "/"@ + name
    } else {
        base + name
    }
}

/// Joins two paths, as `Path::join` does on Unix.
pub fn path_join(base: &str, name: &str) -> (r: String)
    ensures
        r@ == path_join_spec(base@, name@),
{
    let n = name.unicode_len();
    let b = base.unicode_len();
    if n > 0 && name.get_char(0) == '/' {
        owned(name)
    } else if b > 0 && base.get_char(b - 1) != '/' {
        concat3(base, "/", name)
    } else {
        concat2(base, name)
    }
}

/// The parent of a path as `Path::parent` computes it: the path without its
/// final component, or nothing where it has none.
pub uninterp spec fn path_parent(p: Seq<char>) -> Option<Seq<char>>;

/// `Path::parent`: the path without its final component.  Claimed of it:
/// the result is determined by the path alone, and is a leading part of it
/// (the std documentation's "without its final component"; the code returns
/// a sub-slice of the path's start).  The empty path has no parent.
#[verifier::external_body]
pub fn parent_path(p: &str) -> (r: Option<String>)
    ensures
        match path_parent(p@) {
            Some(q) => r matches Some(x) && x@ == q && q.len() <= p@.len() && p@.take(q.len() as int) == q,
            None => r is None,
        },
        p@.len() == 0 ==> r is None,
{
    std::path::Path::new(p).parent().map(|q| q.to_string_lossy().into_owned())
}

/// Where the ids of the published devices are cached: beside the config
/// file.
pub open spec fn published_ids_cache_path_spec(config_path: Seq<char>) -> Seq<char> {
    let dir = match path_parent(config_path) {
        Some(d) => d,
        None => "."@,
    };
    path_join_spec(dir, ".published-device-ids.json"@)
}

/// Where the ids of the published devices are cached: beside the config
/// file.
pub fn published_ids_cache_path(config_path: &str) -> (r: String)
    ensures
        r@ == published_ids_cache_path_spec(config_path@),
{
    let dir = match parent_path(config_path) {
        Some(d) => d,
        None => owned("."),
    };
    path_join(dir.as_str(), ".published-device-ids.json")
}

} // verus!
