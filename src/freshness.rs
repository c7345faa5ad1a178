//! Whether a file on disk can be used without downloading it again.
use vstd::prelude::*;

verus! {

/// One week, in seconds: the default freshness window.
pub const DEFAULT_MAX_AGE_SECS: u64 = 604800;

/// What a filesystem entry is.
#[derive(Debug, Clone, Copy, PartialEq, Eq, Structural)]
pub enum EntryKind {
    Missing,
    File,
    Directory,
    Other,
}

/// What the filesystem said of a path: its kind, and its modification time
/// in seconds since the epoch where that could be read.
#[derive(Debug, Clone, Copy, PartialEq, Eq, Structural)]
pub struct FileStatus {
    pub kind: EntryKind,
    pub modified: Option<u64>,
}

/// Age of a file modified at `modified`, seen at `now`; a modification time
/// in the future counts as age zero.
pub open spec fn age(now: u64, modified: u64) -> nat {
    if modified <= now {
        (now - modified) as nat
    } else {
        0
    }
}

/// A path is fresh when it names a regular file whose modification time is
/// known and whose age is strictly below `max_age`.
pub open spec fn fresh(st: FileStatus, now: u64, max_age: u64) -> bool {
    st.kind == EntryKind::File && match st.modified {
        Some(m) => age(now, m) < max_age,
        None => false,
    }
}

/// Decides from a path's status whether the file there is fresh. A missing
/// path, a directory or an unreadable modification time is never fresh.
pub fn is_fresh(status: &FileStatus, now: u64, max_age: u64) -> (r: bool)
    ensures
        r == fresh(*status, now, max_age),
{
    match status.kind {
        EntryKind::File => match status.modified {
            Some(m) => {
                let a: u64 = if m <= now {
                    now - m
                } else {
                    0
                };
                a < max_age
            },
            None => false,
        },
        _ => false,
    }
}

/// Nothing but a regular file is fresh, and a file is fresh exactly when its
/// age is strictly below the window: a file modified at the moment of the
/// check is fresh under any non-empty window.
pub proof fn lemma_freshness_policy(st: FileStatus, now: u64, max_age: u64)
    ensures
        st.kind == EntryKind::Missing ==> !fresh(st, now, max_age),
        st.kind == EntryKind::Directory ==> !fresh(st, now, max_age),
        st.kind == EntryKind::File && st.modified is Some ==> (fresh(st, now, max_age) <==> age(
            now,
            st.modified->Some_0,
        ) < max_age),
        st.kind == EntryKind::File && st.modified == Some(now) && max_age > 0 ==> fresh(
            st,
            now,
            max_age,
        ),
{
}

} // verus!
