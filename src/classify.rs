//! Deciding whether a filesystem change calls for a rebuild.
use vstd::prelude::*;

use crate::artifact_map::{ArtifactMap, Timestamp};

verus! {

/// What a filesystem change notification says happened.
#[derive(Clone, Copy, Debug, PartialEq, Eq, Structural)]
pub enum ChangeKind {
    Create,
    Modify,
    Remove,
    Other,
}

/// Whether one changed path, with modification time `mtime` (`None` when it
/// could not be read), postdates both the last rebuild and some artifact.
pub open spec fn path_qualifies(
    mtime: Option<Timestamp>,
    artifacts: Map<Seq<char>, Timestamp>,
    last_rebuild: Timestamp,
) -> bool {
    match mtime {
        Some(t) => t > last_rebuild && exists|k: Seq<char>|
            #[trigger] artifacts.contains_key(k) && artifacts[k] < t,
        None => false,
    }
}

/// Whether a change of kind `kind` to paths with the modification times
/// `mtimes` calls for a rebuild: removals never do; otherwise one qualifying
/// path is enough.
pub open spec fn change_qualifies(
    kind: ChangeKind,
    mtimes: Seq<Option<Timestamp>>,
    artifacts: Map<Seq<char>, Timestamp>,
    last_rebuild: Timestamp,
) -> bool {
    kind != ChangeKind::Remove && exists|i: int|
        0 <= i < mtimes.len() && path_qualifies(#[trigger] mtimes[i], artifacts, last_rebuild)
}

/// Whether a change notification calls for a rebuild. `mtimes` holds, for each
/// path the notification names, its current modification time, or `None`
/// where it could not be read (such a path is skipped).
pub fn should_rebuild(
    kind: ChangeKind,
    mtimes: &Vec<Option<Timestamp>>,
    artifacts: &ArtifactMap,
    last_rebuild: Timestamp,
) -> (r: bool)
    requires
        artifacts.wf(),
    ensures
        r == change_qualifies(kind, mtimes@, artifacts@, last_rebuild),
{
    if kind == ChangeKind::Remove {
        return false;
    }
    let mut i: usize = 0;
    while i < mtimes.len()
        invariant
            artifacts.wf(),
            kind != ChangeKind::Remove,
            i <= mtimes@.len(),
            forall|j: int| 0 <= j < i ==> !path_qualifies(#[trigger] mtimes@[j], artifacts@, last_rebuild),
        decreases mtimes@.len() - i,
    {
        if let Some(t) = mtimes[i] {
            if t > last_rebuild && artifacts.any_older_than(t) {
                assert(path_qualifies(mtimes@[i as int], artifacts@, last_rebuild));
                return true;
            }
        }
        i = i + 1;
    }
    false
}

} // verus!
