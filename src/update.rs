//! Decisions of the background update check, which runs apart from any
//! acquisition: after a settling delay it compares the version recorded
//! beside the artifact with the latest known release and, where they differ,
//! installs the artifact again and records the new version.
use vstd::prelude::*;
use crate::layout::{artifact_location, artifact_path};
use crate::platform::{marker_file_name, marker_name, Platform, Role};

verus! {

/// Seconds the background check waits before it starts, so as not to
/// contend with the host's startup.
pub const SETTLE_DELAY_SECS: u64 = 5;

/// The text of an optional string.
pub open spec fn opt_text(o: Option<String>) -> Option<Seq<char>> {
    match o {
        Some(s) => Some(s@),
        None => None,
    }
}

/// The version to install and record, if any: the latest known version when
/// it is known and differs from the recorded one.
pub open spec fn update_choice(installed: Seq<char>, latest: Option<Seq<char>>) -> Option<Seq<char>> {
    match latest {
        Some(l) => if l != installed {
            Some(l)
        } else {
            None
        },
        None => None,
    }
}

/// Decides whether the background check re-installs the artifact.
/// `installed` is the recorded version (empty where no marker could be
/// read) and `latest` the latest known release, where it could be learnt.
/// Returns the version to record after the re-install, or `None` to leave
/// everything as it is.
pub fn version_to_record(installed: &str, latest: Option<String>) -> (r: Option<String>)
    ensures
        opt_text(r) == update_choice(installed@, opt_text(latest)),
{
    match latest {
        Some(l) => {
            let recorded = String::from_str(installed);
            if l == recorded {
                None
            } else {
                Some(l)
            }
        },
        None => None,
    }
}

/// Path of the version marker of the server artifact in the scope of
/// `version`.
pub fn marker_location(version: &str, p: Platform) -> (r: String)
    ensures
        r@ == artifact_path(version@, marker_file_name(Role::Server, p)),
{
    let name = marker_name(Role::Server, p);
    artifact_location(version, name.as_str())
}

} // verus!
