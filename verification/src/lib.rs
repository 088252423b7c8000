//! Frame-by-frame progress accounting.
//!
//! A [`Progress`] ledger counts tasks and completed tasks across three
//! horizons: the counts registered during the frame in progress, a frozen
//! snapshot of the last finished frame, and a persisted baseline that is
//! re-applied into every frame without per-frame re-registration. The
//! completion ratio is always read from the frozen snapshot, never from
//! counts still being accumulated.

use vstd::prelude::*;

verus! {

/// A pair of counters: how many tasks are known and how many of them are done.
///
/// `done` exceeding `tasks` is a caller bug that the ledger tolerates; the
/// reporter clamps it instead of failing.
#[derive(Clone, Copy, Debug, PartialEq, Eq, Structural)]
pub struct TaskProgress {
    /// How many tasks were recorded.
    pub tasks: usize,
    /// How many of the recorded tasks are done.
    pub done: usize,
}

impl TaskProgress {
    /// Both counters are zero.
    pub open spec fn is_zero(self) -> bool {
        self.tasks == 0 && self.done == 0
    }

    fn track(&mut self, tasks: usize, done: usize)
        requires
            old(self).tasks + tasks <= usize::MAX,
            old(self).done + done <= usize::MAX,
        ensures
            final(self).tasks == old(self).tasks + tasks,
            final(self).done == old(self).done + done,
    {
        self.tasks = self.tasks + tasks;
        self.done = self.done + done;
    }

    fn task(&mut self, task: Task)
        requires
            old(self).tasks < usize::MAX,
            task == Task::Done ==> old(self).done < usize::MAX,
        ensures
            final(self).tasks == old(self).tasks + 1,
            final(self).done == old(self).done + if task == Task::Done {
                1 as usize
            } else {
                0 as usize
            },
    {
        match task {
            Task::Done => self.track(1, 1),
            Task::InProgress => self.track(1, 0),
        }
    }

    fn clear(&mut self)
        ensures
            final(self).is_zero(),
    {
        self.tasks = 0;
        self.done = 0;
    }
}

impl Default for TaskProgress {
    /// A fresh counter pair: zero tasks, zero done.
    fn default() -> (r: Self)
        ensures
            r.is_zero(),
    {
        TaskProgress { tasks: 0, done: 0 }
    }
}

/// Marks a single task as complete or still pending.
#[derive(Clone, Copy, Debug, PartialEq, Eq, Structural)]
pub enum Task {
    /// The task is complete.
    Done,
    /// The task is still pending.
    InProgress,
}

/// The progress ledger: one counter pair per accounting horizon.
///
/// A host update loop registers work into `current` during a frame, calls
/// [`Progress::finish_frame`] exactly once at the frame boundary, and reads
/// the ratio of the frozen `previous` snapshot. The `persisted` baseline is
/// folded into every snapshot without per-frame re-registration.
#[derive(Clone, Copy, Debug, PartialEq, Eq, Structural)]
pub struct Progress {
    /// Counts registered during the frame in progress; zeroed at each
    /// frame boundary.
    pub current: TaskProgress,
    /// The settled snapshot of the last finished frame; the sole source of
    /// the reported ratio.
    pub previous: TaskProgress,
    /// The standing baseline re-applied into every frame's snapshot.
    pub persisted: TaskProgress,
}

/// A registration: `tasks` and `done` were added to the current frame's
/// counters; the snapshot and the baseline are untouched.
pub open spec fn track_step(pre: Progress, post: Progress, tasks: usize, done: usize) -> bool {
    &&& post.current.tasks == pre.current.tasks + tasks
    &&& post.current.done == pre.current.done + done
    &&& post.previous == pre.previous
    &&& post.persisted == pre.persisted
}

/// A frame boundary: the baseline is folded into the accumulated counts,
/// the sum becomes the new snapshot, and the accumulator starts over.
pub open spec fn finish_frame_step(pre: Progress, post: Progress) -> bool {
    &&& post.previous.tasks == pre.current.tasks + pre.persisted.tasks
    &&& post.previous.done == pre.current.done + pre.persisted.done
    &&& post.current.is_zero()
    &&& post.persisted == pre.persisted
}

/// A baseline registration: `tasks` and `done` were added to the persisted
/// baseline; the frame counters and the snapshot are untouched.
pub open spec fn persist_step(pre: Progress, post: Progress, tasks: usize, done: usize) -> bool {
    &&& post.persisted.tasks == pre.persisted.tasks + tasks
    &&& post.persisted.done == pre.persisted.done + done
    &&& post.current == pre.current
    &&& post.previous == pre.previous
}

impl Progress {
    /// All three counter pairs are zero.
    pub open spec fn is_fresh(self) -> bool {
        self.current.is_zero() && self.previous.is_zero() && self.persisted.is_zero()
    }

    /// The reported completion ratio, as an exact fraction: the done count of
    /// the last snapshot, clamped to its task count, over that task count.
    pub open spec fn spec_ratio(self) -> (usize, usize) {
        (
            if self.previous.done <= self.previous.tasks {
                self.previous.done
            } else {
                self.previous.tasks
            },
            self.previous.tasks,
        )
    }

    /// Registers `tasks` tasks for the current frame, `done` of them already
    /// complete. The snapshot and the baseline are untouched, so the reported
    /// ratio does not move until the next frame boundary.
    pub fn track(&mut self, tasks: usize, done: usize)
        requires
            old(self).current.tasks + tasks <= usize::MAX,
            old(self).current.done + done <= usize::MAX,
        ensures
            track_step(*old(self), *final(self), tasks, done),
    {
        self.current.track(tasks, done);
    }

    /// Registers one task for the current frame, done or still pending.
    pub fn task(&mut self, task: Task)
        requires
            old(self).current.tasks < usize::MAX,
            task == Task::Done ==> old(self).current.done < usize::MAX,
        ensures
            track_step(
                *old(self),
                *final(self),
                1,
                if task == Task::Done { 1 as usize } else { 0 as usize },
            ),
    {
        self.current.task(task);
    }

    /// Ends the current frame: re-applies the persisted baseline into the
    /// accumulated counts, freezes the sum as the new snapshot, and resets
    /// the accumulator for the next frame. Call exactly once per frame,
    /// after all registrations and before reading the ratio.
    pub fn finish_frame(&mut self)
        requires
            old(self).current.tasks + old(self).persisted.tasks <= usize::MAX,
            old(self).current.done + old(self).persisted.done <= usize::MAX,
        ensures
            finish_frame_step(*old(self), *final(self)),
    {
        let tasks = self.persisted.tasks;
        let done = self.persisted.done;
        self.track(tasks, done);
        self.previous = self.current;
        self.current.clear();
    }

    /// Reports the completion of the last finished frame as an exact
    /// fraction `(done, tasks)`, the done count clamped to the task count.
    /// A zero task count means no frame with tasks has settled yet: the
    /// ratio is undefined and the host must pick a policy for it.
    pub fn progress_ratio(&self) -> (r: (usize, usize))
        ensures
            r == self.spec_ratio(),
    {
        if self.previous.done <= self.previous.tasks {
            (self.previous.done, self.previous.tasks)
        } else {
            (self.previous.tasks, self.previous.tasks)
        }
    }

    /// Adds `done` tasks to the baseline, all of them already complete:
    /// the standing equivalent of registering `done` done tasks every frame.
    pub fn persist_done_tasks(&mut self, done: usize)
        requires
            old(self).persisted.tasks + done <= usize::MAX,
            old(self).persisted.done + done <= usize::MAX,
        ensures
            persist_step(*old(self), *final(self), done, done),
    {
        self.persisted.track(done, done);
    }

    /// Adds `done` completed tasks to the baseline: the standing equivalent
    /// of registering `done` completions every frame.
    pub fn persist_done(&mut self, done: usize)
        requires
            old(self).persisted.done + done <= usize::MAX,
        ensures
            persist_step(*old(self), *final(self), 0, done),
    {
        self.persisted.track(0, done);
    }

    /// Adds `tasks` pending tasks to the baseline: the standing equivalent
    /// of registering `tasks` not-yet-done tasks every frame.
    pub fn persist_tasks(&mut self, tasks: usize)
        requires
            old(self).persisted.tasks + tasks <= usize::MAX,
        ensures
            persist_step(*old(self), *final(self), tasks, 0),
    {
        self.persisted.track(tasks, 0);
    }

    /// Zeroes all three counter pairs, the persisted baseline included:
    /// a full reset, not a frame boundary.
    pub fn clear(&mut self)
        ensures
            final(self).is_fresh(),
    {
        self.current.clear();
        self.previous.clear();
        self.persisted.clear();
    }
}

impl Default for Progress {
    /// A fresh ledger: every counter of every horizon is zero.
    fn default() -> (r: Self)
        ensures
            r.is_fresh(),
    {
        Progress {
            current: TaskProgress { tasks: 0, done: 0 },
            previous: TaskProgress { tasks: 0, done: 0 },
            persisted: TaskProgress { tasks: 0, done: 0 },
        }
    }
}

/// Law: registering `t` tasks with `d` of them done on a fresh ledger and
/// then finishing the frame reports exactly `d` done of `t` tasks.
pub proof fn lemma_register_then_finish(p0: Progress, p1: Progress, p2: Progress, t: usize, d: usize)
    requires
        p0.is_fresh(),
        d <= t,
        track_step(p0, p1, t, d),
        finish_frame_step(p1, p2),
    ensures
        p2.spec_ratio() == (d, t),
{
}

/// Law: reporting is idempotent. The reporter's contract pins its result to
/// the ledger state alone, so any number of reads between two frame
/// boundaries returns the same ratio.
pub proof fn lemma_report_idempotent(p: Progress, r1: (usize, usize), r2: (usize, usize))
    requires
        r1 == p.spec_ratio(),
        r2 == p.spec_ratio(),
    ensures
        r1 == r2,
{
}

/// Law: a persisted fully-done baseline re-applies identically in every
/// frame. After persisting `n` done tasks on a fresh ledger, two frame
/// boundaries with no other registration each report all `n` of `n` tasks
/// done — full completion, with nothing double-counted.
pub proof fn lemma_persisted_reapplies(
    p0: Progress,
    p1: Progress,
    p2: Progress,
    p3: Progress,
    n: usize,
)
    requires
        p0.is_fresh(),
        persist_step(p0, p1, n, n),
        finish_frame_step(p1, p2),
        finish_frame_step(p2, p3),
    ensures
        p2.previous.tasks == n && p2.previous.done == n,
        p3.previous == p2.previous,
        p2.spec_ratio() == (n, n),
        p3.spec_ratio() == p2.spec_ratio(),
{
}

/// Law: frame isolation. A registration made after a frame boundary leaves
/// the frozen snapshot, and with it the reported ratio, untouched until the
/// next boundary.
pub proof fn lemma_frame_isolation(p0: Progress, p1: Progress, p2: Progress, t: usize, d: usize)
    requires
        finish_frame_step(p0, p1),
        track_step(p1, p2, t, d),
    ensures
        p2.previous == p1.previous,
        p2.spec_ratio() == p1.spec_ratio(),
{
}

/// Law: the reported fraction never exceeds one — its numerator is clamped
/// to its denominator in every ledger state.
pub proof fn lemma_ratio_never_above_one(p: Progress)
    ensures
        p.spec_ratio().0 <= p.spec_ratio().1,
{
}

/// Law: when a frame accumulated more done tasks than tasks (a caller bug),
/// the report after the boundary is exactly full completion: the clamped
/// numerator equals the denominator.
pub proof fn lemma_overshoot_clamped_to_one(p0: Progress, p1: Progress)
    requires
        finish_frame_step(p0, p1),
        p0.current.done + p0.persisted.done >= p0.current.tasks + p0.persisted.tasks,
    ensures
        p1.spec_ratio().0 == p1.spec_ratio().1,
{
}

/// Law: a full clear resets every horizon, so the first frame boundary after
/// it freezes the degenerate zero-task snapshot: the report is zero done of
/// zero tasks, the "no ratio defined yet" state.
pub proof fn lemma_clear_then_finish(p0: Progress, p1: Progress)
    requires
        p0.is_fresh(),
        finish_frame_step(p0, p1),
    ensures
        p1.previous.is_zero(),
        p1.spec_ratio() == (0 as usize, 0 as usize),
{
}

} // verus!
