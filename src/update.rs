use vstd::prelude::*;
use crate::version::{parse_version, version_key};

verus! {

/// Whether `remote` names a newer release than `current`: both parse and the
/// remote one is greater.
pub open spec fn update_available(current: Seq<char>, remote: Seq<char>) -> bool {
    version_key(current) is Some && version_key(remote) is Some && version_key(remote)->0 > version_key(
        current,
    )->0
}

/// Given the running version and the version found in the source tree,
/// returns the latter when it is newer.
pub fn check_for_update_available(current_version: &str, remote_version: String) -> (r: Option<String>)
    ensures
        update_available(current_version@, remote_version@) ==> r == Some(remote_version),
        !update_available(current_version@, remote_version@) ==> r is None,
{
    let current = match parse_version(current_version) {
        Some(c) => c,
        None => return None,
    };
    let remote = match parse_version(remote_version.as_str()) {
        Some(r) => r,
        None => return None,
    };
    if remote > current {
        Some(remote_version)
    } else {
        None
    }
}

} // verus!
