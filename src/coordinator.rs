//! The rebuild coordinator: the state machine that alternates between
//! building and waiting for filesystem changes.
use vstd::prelude::*;

use crate::artifact_map::{ArtifactMap, Timestamp};
use crate::classify::{change_qualifies, path_qualifies, should_rebuild, ChangeKind};

verus! {

/// Whether the child process is supervised.
#[derive(Clone, Copy, Debug, PartialEq, Eq, Structural)]
pub enum Mode {
    /// Rebuild on change only.
    Build,
    /// Rebuild on change and restart the child process after each build.
    Run,
}

/// What the coordinator's driver does next.
#[derive(Clone, Copy, Debug, PartialEq, Eq, Structural)]
pub enum Step {
    /// Invoke the build.
    Build,
    /// Block until the next change notification.
    AwaitEvent,
}

/// What follows a finished build.
#[derive(Clone, Copy, Debug, PartialEq, Eq, Structural)]
pub enum AfterBuild {
    /// Go on with the loop.
    Continue,
    /// Send one restart signal to the supervisor, then go on.
    Restart,
    /// Stop the whole program: the build failed.
    Halt,
}

/// Why a build did not succeed.
#[derive(Clone, Copy, Debug, PartialEq, Eq, Structural)]
pub enum BuildError {
    /// The build command exited unsuccessfully, with this exit code if it had one.
    NonZeroExit(Option<i32>),
    /// The build command could not be started or its output could not be read.
    Invocation,
}

/// The coordinator's state: the mode, the pending-rebuild flag, when the last
/// rebuild began, and the artifacts that builds have reported.
pub struct Coordinator {
    pub mode: Mode,
    pub pending: bool,
    pub last_rebuild: Timestamp,
    pub artifacts: ArtifactMap,
}

/// The step that a coordinator takes with the given pending flag.
pub open spec fn step_for(pending: bool) -> Step {
    if pending {
        Step::Build
    } else {
        Step::AwaitEvent
    }
}

/// The larger of two timestamps.
pub open spec fn later(a: Timestamp, b: Timestamp) -> Timestamp {
    if a >= b {
        a
    } else {
        b
    }
}

/// `m` with each of `items` recorded in turn, a later record of a path
/// replacing an earlier one.
pub open spec fn upsert_all(
    m: Map<Seq<char>, Timestamp>,
    items: Seq<(String, Timestamp)>,
) -> Map<Seq<char>, Timestamp>
    decreases items.len(),
{
    if items.len() == 0 {
        m
    } else {
        upsert_all(m, items.drop_last()).insert(items.last().0@, items.last().1)
    }
}

/// The state a coordinator starts in: a build is pending and nothing is recorded.
pub open spec fn is_initial(c: Coordinator, mode: Mode) -> bool {
    &&& c.artifacts.wf()
    &&& c.mode == mode
    &&& c.pending
    &&& c.last_rebuild == 0
    &&& c.artifacts@ == Map::<Seq<char>, Timestamp>::empty()
}

/// `after` is `before` once a build has begun at time `now`: the flag is
/// cleared and the last rebuild time moves forward to `now`, never back.
pub open spec fn begins_build(before: Coordinator, now: Timestamp, after: Coordinator) -> bool {
    &&& before.pending
    &&& !after.pending
    &&& after.last_rebuild == later(before.last_rebuild, now)
    &&& after.artifacts == before.artifacts
    &&& after.mode == before.mode
}

/// `after` and `action` follow from `before` once a build finished with
/// `result`: a failure halts and changes nothing; a success records each
/// reported artifact and, in run mode, asks for a restart.
pub open spec fn finishes_build(
    before: Coordinator,
    result: Result<Vec<(String, Timestamp)>, BuildError>,
    after: Coordinator,
    action: AfterBuild,
) -> bool {
    match result {
        Err(_) => action == AfterBuild::Halt && after == before,
        Ok(items) => {
            &&& after.artifacts.wf()
            &&& after.artifacts@ == upsert_all(before.artifacts@, items@)
            &&& after.pending == before.pending
            &&& after.last_rebuild == before.last_rebuild
            &&& after.mode == before.mode
            &&& action == (if before.mode == Mode::Run {
                AfterBuild::Restart
            } else {
                AfterBuild::Continue
            })
        },
    }
}

/// `after` is `before` once a change notification has been classified: the
/// flag is set if the change qualifies and nothing else moves.
pub open spec fn observes(
    before: Coordinator,
    kind: ChangeKind,
    mtimes: Seq<Option<Timestamp>>,
    after: Coordinator,
) -> bool {
    &&& after.pending == (before.pending || change_qualifies(
        kind,
        mtimes,
        before.artifacts@,
        before.last_rebuild,
    ))
    &&& after.last_rebuild == before.last_rebuild
    &&& after.artifacts == before.artifacts
    &&& after.mode == before.mode
}

impl Coordinator {
    /// A coordinator in the given mode, with its first build pending.
    pub fn new(mode: Mode) -> (r: Coordinator)
        ensures
            is_initial(r, mode),
    {
        Coordinator { mode, pending: true, last_rebuild: 0, artifacts: ArtifactMap::new() }
    }

    /// What the driver does next: build while a build is pending, else wait.
    pub fn next_step(&self) -> (r: Step)
        ensures
            r == step_for(self.pending),
    {
        if self.pending {
            Step::Build
        } else {
            Step::AwaitEvent
        }
    }

    /// Marks the start of a build at time `now`, before the build command runs,
    /// so that changes made while it runs count as newer than it.
    pub fn begin_build(&mut self, now: Timestamp)
        requires
            old(self).pending,
        ensures
            begins_build(*old(self), now, *final(self)),
    {
        self.pending = false;
        if now > self.last_rebuild {
            self.last_rebuild = now;
        }
    }

    /// Takes in the result of a build: on success the reported artifacts and
    /// their modification times.
    pub fn finish_build(&mut self, result: Result<Vec<(String, Timestamp)>, BuildError>) -> (action: AfterBuild)
        requires
            old(self).artifacts.wf(),
        ensures
            final(self).artifacts.wf(),
            finishes_build(*old(self), result, *final(self), action),
    {
        match result {
            Err(_) => AfterBuild::Halt,
            Ok(items) => {
                let ghost start = self.artifacts@;
                let mut i: usize = 0;
                while i < items.len()
                    invariant
                        self.artifacts.wf(),
                        self.pending == old(self).pending,
                        self.last_rebuild == old(self).last_rebuild,
                        self.mode == old(self).mode,
                        i <= items@.len(),
                        self.artifacts@ == upsert_all(start, items@.subrange(0, i as int)),
                    decreases items@.len() - i,
                {
                    proof {
                        assert(items@.subrange(0, i + 1).drop_last() == items@.subrange(0, i as int));
                    }
                    self.artifacts.upsert(items[i].0.clone(), items[i].1);
                    i = i + 1;
                }
                assert(items@.subrange(0, items@.len() as int) == items@);
                if self.mode == Mode::Run {
                    AfterBuild::Restart
                } else {
                    AfterBuild::Continue
                }
            },
        }
    }

    /// Takes in one change notification of kind `kind` whose paths had the
    /// modification times `mtimes` (`None` where unreadable).
    pub fn observe(&mut self, kind: ChangeKind, mtimes: &Vec<Option<Timestamp>>)
        requires
            old(self).artifacts.wf(),
        ensures
            final(self).artifacts.wf(),
            observes(*old(self), kind, mtimes@, *final(self)),
    {
        if should_rebuild(kind, mtimes, &self.artifacts, self.last_rebuild) {
            self.pending = true;
        }
    }
}

/// A fresh coordinator builds before it waits for any event: its first step
/// is a build, and once that build has begun its next step is to wait.
pub proof fn initial_build_comes_first(c0: Coordinator, mode: Mode, now: Timestamp, c1: Coordinator)
    requires
        is_initial(c0, mode),
        begins_build(c0, now, c1),
    ensures
        step_for(c0.pending) == Step::Build,
        step_for(c1.pending) == Step::AwaitEvent,
{
}

/// A change never calls for a rebuild when each of its readable paths was
/// modified no later than the last rebuild or no later than every artifact.
pub proof fn no_spurious_rebuild(
    kind: ChangeKind,
    mtimes: Seq<Option<Timestamp>>,
    artifacts: Map<Seq<char>, Timestamp>,
    last_rebuild: Timestamp,
)
    requires
        forall|i: int|
            0 <= i < mtimes.len() && (#[trigger] mtimes[i]) is Some ==> mtimes[i]->0 <= last_rebuild
                || forall|k: Seq<char>|
                #[trigger] artifacts.contains_key(k) ==> mtimes[i]->0 <= artifacts[k],
    ensures
        !change_qualifies(kind, mtimes, artifacts, last_rebuild),
{
    assert forall|i: int| 0 <= i < mtimes.len() implies !path_qualifies(
        #[trigger] mtimes[i],
        artifacts,
        last_rebuild,
    ) by {
        if mtimes[i] is Some && mtimes[i]->0 > last_rebuild {
            assert forall|k: Seq<char>| #[trigger] artifacts.contains_key(k) implies !(artifacts[k]
                < mtimes[i]->0) by {}
        }
    }
}

/// With the single artifact `/bin/app` recorded at `t0` and the last rebuild at
/// `t0`, a change (other than a removal) to a path modified at `t1 > t0`
/// makes a rebuild pending.
pub proof fn qualifying_change_sets_pending(
    c0: Coordinator,
    kind: ChangeKind,
    mtimes: Seq<Option<Timestamp>>,
    t0: Timestamp,
    t1: Timestamp,
    c1: Coordinator,
)
    requires
        c0.artifacts@ == map!["/bin/app"@ => t0],
        c0.last_rebuild == t0,
        t1 > t0,
        kind != ChangeKind::Remove,
        mtimes.contains(Some(t1)),
        observes(c0, kind, mtimes, c1),
    ensures
        c1.pending,
{
    let i = choose|i: int| 0 <= i < mtimes.len() && mtimes[i] == Some(t1);
    assert(c0.artifacts@.contains_key("/bin/app"@));
    assert(path_qualifies(mtimes[i], c0.artifacts@, c0.last_rebuild));
}

/// A removal never makes a rebuild pending, whatever the times involved.
pub proof fn removal_is_ignored(
    c0: Coordinator,
    mtimes: Seq<Option<Timestamp>>,
    c1: Coordinator,
)
    requires
        observes(c0, ChangeKind::Remove, mtimes, c1),
    ensures
        !change_qualifies(ChangeKind::Remove, mtimes, c0.artifacts@, c0.last_rebuild),
        c1.pending == c0.pending,
{
}

/// A restart is asked for only after a successful build in run mode; a failed
/// build never asks for one and leaves the state as it was.
pub proof fn restart_only_after_success(
    c0: Coordinator,
    result: Result<Vec<(String, Timestamp)>, BuildError>,
    c1: Coordinator,
    action: AfterBuild,
)
    requires
        finishes_build(c0, result, c1, action),
    ensures
        action == AfterBuild::Restart <==> (result is Ok && c0.mode == Mode::Run),
        result is Err ==> action == AfterBuild::Halt && c1 == c0,
{
}

/// Two qualifying changes taken in one after the other leave one build
/// pending, and a single build then clears it: they cause exactly one more
/// build, not two.
pub proof fn qualifying_changes_coalesce(
    c0: Coordinator,
    kind1: ChangeKind,
    mtimes1: Seq<Option<Timestamp>>,
    c1: Coordinator,
    kind2: ChangeKind,
    mtimes2: Seq<Option<Timestamp>>,
    c2: Coordinator,
    now: Timestamp,
    c3: Coordinator,
)
    requires
        change_qualifies(kind1, mtimes1, c0.artifacts@, c0.last_rebuild),
        change_qualifies(kind2, mtimes2, c1.artifacts@, c1.last_rebuild),
        observes(c0, kind1, mtimes1, c1),
        observes(c1, kind2, mtimes2, c2),
        begins_build(c2, now, c3),
    ensures
        step_for(c1.pending) == Step::Build,
        step_for(c2.pending) == Step::Build,
        c2.last_rebuild == c0.last_rebuild && c2.artifacts == c0.artifacts,
        step_for(c3.pending) == Step::AwaitEvent,
{
}

} // verus!
