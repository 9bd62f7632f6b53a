//! Scheduling: one drive per task at a time (a drive asked for while one
//! runs becomes a single rerun), one running task per repository, the tasks
//! queued again after a load, and what an attached MiniApp is shown.

use vstd::prelude::*;

use crate::store::LoopxPersistedState;
use crate::text::str_eq;
use crate::types::{
    LoopxEnvironmentStatus, LoopxExecutionDomain, LoopxExecutionSupport, LoopxSnapshot,
    LoopxTaskState,
};

verus! {

// ---------------------------------------------------------------------------
// Drives.
// ---------------------------------------------------------------------------

/// One task with a drive in progress, and whether another drive was asked
/// for meanwhile.
pub struct RunSlot {
    pub task_id: String,
    pub rerun_requested: bool,
}

/// The tasks with a drive in progress.
pub struct RunSlots {
    slots: Vec<RunSlot>,
}

/// The model of a slot list: task id to whether a rerun was asked for.
pub open spec fn run_slots_model(slots: Seq<RunSlot>) -> Map<Seq<char>, bool>
    decreases slots.len(),
{
    if slots.len() == 0 {
        Map::empty()
    } else {
        run_slots_model(slots.drop_last()).insert(slots.last().task_id@, slots.last().rerun_requested)
    }
}

/// The slots name distinct tasks.
pub open spec fn distinct_run_slots(slots: Seq<RunSlot>) -> bool {
    forall|i: int, j: int|
        0 <= i < j < slots.len() ==> (#[trigger] slots[i]).task_id@ != (#[trigger] slots[j]).task_id@
}

proof fn lemma_run_slot_model(slots: Seq<RunSlot>, i: int)
    requires
        distinct_run_slots(slots),
        0 <= i < slots.len(),
    ensures
        run_slots_model(slots).contains_key(slots[i].task_id@),
        run_slots_model(slots)[slots[i].task_id@] == slots[i].rerun_requested,
    decreases slots.len(),
{
    if i < slots.len() - 1 {
        lemma_run_slot_model(slots.drop_last(), i);
        assert(slots.drop_last()[i] == slots[i]);
    }
}

proof fn lemma_run_slot_absent(slots: Seq<RunSlot>, id: Seq<char>)
    requires
        forall|i: int| 0 <= i < slots.len() ==> (#[trigger] slots[i]).task_id@ != id,
    ensures
        !run_slots_model(slots).contains_key(id),
    decreases slots.len(),
{
    if slots.len() > 0 {
        lemma_run_slot_absent(slots.drop_last(), id);
    }
}

proof fn lemma_run_slots_keys(slots: Seq<RunSlot>, id: Seq<char>)
    requires
        run_slots_model(slots).contains_key(id),
    ensures
        exists|i: int| 0 <= i < slots.len() && (#[trigger] slots[i]).task_id@ == id,
    decreases slots.len(),
{
    if slots.last().task_id@ != id {
        lemma_run_slots_keys(slots.drop_last(), id);
        let i = choose|i: int| 0 <= i < slots.len() - 1 && (#[trigger] slots.drop_last()[i]).task_id@ == id;
        assert(slots[i] == slots.drop_last()[i]);
    }
}

proof fn lemma_run_slots_update(slots: Seq<RunSlot>, i: int, flag: bool)
    requires
        distinct_run_slots(slots),
        0 <= i < slots.len(),
    ensures
        run_slots_model(slots.update(i, RunSlot { task_id: slots[i].task_id, rerun_requested: flag }))
            =~= run_slots_model(slots).insert(slots[i].task_id@, flag),
        distinct_run_slots(slots.update(i, RunSlot { task_id: slots[i].task_id, rerun_requested: flag })),
    decreases slots.len(),
{
    let updated = slots.update(i, RunSlot { task_id: slots[i].task_id, rerun_requested: flag });
    if i < slots.len() - 1 {
        lemma_run_slots_update(slots.drop_last(), i, flag);
        assert(updated.drop_last() =~= slots.drop_last().update(
            i,
            RunSlot { task_id: slots.drop_last()[i].task_id, rerun_requested: flag },
        ));
        assert(slots[i].task_id@ != slots.last().task_id@);
    } else {
        assert(updated.drop_last() =~= slots.drop_last());
        lemma_run_slot_absent(slots.drop_last(), slots[i].task_id@);
    }
}

proof fn lemma_run_slots_remove(slots: Seq<RunSlot>, i: int)
    requires
        distinct_run_slots(slots),
        0 <= i < slots.len(),
    ensures
        run_slots_model(slots.remove(i)) =~= run_slots_model(slots).remove(slots[i].task_id@),
        distinct_run_slots(slots.remove(i)),
    decreases slots.len(),
{
    let removed = slots.remove(i);
    if i < slots.len() - 1 {
        lemma_run_slots_remove(slots.drop_last(), i);
        assert(removed.drop_last() =~= slots.drop_last().remove(i));
        assert(removed.last() == slots.last());
        assert(slots[i].task_id@ != slots.last().task_id@);
    } else {
        assert(removed =~= slots.drop_last());
        lemma_run_slot_absent(slots.drop_last(), slots[i].task_id@);
    }
}

impl RunSlots {
    /// Task id to whether a rerun was asked for.
    pub closed spec fn model(&self) -> Map<Seq<char>, bool> {
        run_slots_model(self.slots@)
    }

    /// Each task holds one slot at most.
    pub closed spec fn wf(&self) -> bool {
        distinct_run_slots(self.slots@)
    }

    /// No drive in progress.
    pub fn new() -> (res: Self)
        ensures
            res.wf(),
            res.model() == Map::<Seq<char>, bool>::empty(),
    {
        RunSlots { slots: Vec::new() }
    }

    fn position(&self, task_id: &str) -> (res: Option<usize>)
        ensures
            match res {
                Some(i) => i < self.slots@.len() && self.slots@[i as int].task_id@ == task_id@,
                None => forall|i: int| 0 <= i < self.slots@.len() ==> (#[trigger] self.slots@[i]).task_id@ != task_id@,
            },
    {
        let mut i: usize = 0;
        while i < self.slots.len()
            invariant
                i <= self.slots@.len(),
                forall|k: int| 0 <= k < i ==> (#[trigger] self.slots@[k]).task_id@ != task_id@,
            decreases self.slots@.len() - i,
        {
            if str_eq(self.slots[i].task_id.as_str(), task_id) {
                return Some(i);
            }
            i = i + 1;
        }
        None
    }

    /// Takes the task's slot for a drive. When a drive already runs, a rerun
    /// is asked for instead and `false` returned.
    pub fn reserve(&mut self, task_id: &str) -> (res: bool)
        requires
            old(self).wf(),
        ensures
            final(self).wf(),
            res == !old(self).model().contains_key(task_id@),
            final(self).model() == (if res {
                old(self).model().insert(task_id@, false)
            } else {
                old(self).model().insert(task_id@, true)
            }),
    {
        match self.position(task_id) {
            Some(i) => {
                proof {
                    lemma_run_slot_model(self.slots@, i as int);
                    lemma_run_slots_update(self.slots@, i as int, true);
                }
                let ghost before = self.slots@;
                let id = self.slots[i].task_id.clone();
                self.slots.set(i, RunSlot { task_id: id, rerun_requested: true });
                proof {
                    assert(self.slots@ =~= before.update(
                        i as int,
                        RunSlot { task_id: before[i as int].task_id, rerun_requested: true },
                    ));
                }
                false
            },
            None => {
                proof {
                    lemma_run_slot_absent(self.slots@, task_id@);
                }
                self.slots.push(RunSlot { task_id: task_id.to_owned(), rerun_requested: false });
                proof {
                    assert(self.slots@.drop_last() =~= old(self).slots@);
                }
                true
            },
        }
    }

    /// Frees the task's slot once a drive ended; returns whether a rerun was
    /// asked for meanwhile.
    pub fn release(&mut self, task_id: &str) -> (res: bool)
        requires
            old(self).wf(),
        ensures
            final(self).wf(),
            res == (old(self).model().contains_key(task_id@) && old(self).model()[task_id@]),
            final(self).model() == old(self).model().remove(task_id@),
    {
        match self.position(task_id) {
            Some(i) => {
                proof {
                    lemma_run_slot_model(self.slots@, i as int);
                    lemma_run_slots_remove(self.slots@, i as int);
                }
                let slot = self.slots.remove(i);
                slot.rerun_requested
            },
            None => {
                proof {
                    lemma_run_slot_absent(self.slots@, task_id@);
                    assert(old(self).model().remove(task_id@) =~= old(self).model());
                }
                false
            },
        }
    }

    /// Drops a rerun that was asked for while the task's drive runs.
    pub fn suppress_rerun(&mut self, task_id: &str)
        requires
            old(self).wf(),
        ensures
            final(self).wf(),
            final(self).model() == (if old(self).model().contains_key(task_id@) {
                old(self).model().insert(task_id@, false)
            } else {
                old(self).model()
            }),
    {
        match self.position(task_id) {
            Some(i) => {
                proof {
                    lemma_run_slot_model(self.slots@, i as int);
                    lemma_run_slots_update(self.slots@, i as int, false);
                }
                let ghost before = self.slots@;
                let id = self.slots[i].task_id.clone();
                self.slots.set(i, RunSlot { task_id: id, rerun_requested: false });
                proof {
                    assert(self.slots@ =~= before.update(
                        i as int,
                        RunSlot { task_id: before[i as int].task_id, rerun_requested: false },
                    ));
                }
            },
            None => {
                proof {
                    lemma_run_slot_absent(self.slots@, task_id@);
                }
            },
        }
    }
}

/// A drive asked for while one runs is not lost and not doubled: the second
/// reservation fails and turns into exactly one rerun, reported when the
/// running drive releases its slot.
pub proof fn lemma_concurrent_drive_becomes_one_rerun(
    m0: Map<Seq<char>, bool>,
    id: Seq<char>,
)
    requires
        !m0.contains_key(id),
    ensures
        ({
            let m1 = m0.insert(id, false);
            let m2 = m1.insert(id, true);
            let m3 = m2.insert(id, true);
            &&& m1.contains_key(id)
            &&& m2[id]
            &&& m3 == m2
            &&& m2.remove(id) =~= m0
        }),
{
    let m1 = m0.insert(id, false);
    let m2 = m1.insert(id, true);
    assert(m2.insert(id, true) =~= m2);
    assert(m2.remove(id) =~= m0);
}

// ---------------------------------------------------------------------------
// Repository lanes.
// ---------------------------------------------------------------------------

/// The task running in one repository's lane.
pub struct LaneSlot {
    pub repository_id: String,
    pub task_id: String,
}

/// The repositories with a running task.
pub struct LaneSlots {
    slots: Vec<LaneSlot>,
}

/// The model of a lane list: repository id to the task running in it.
pub open spec fn lane_slots_model(slots: Seq<LaneSlot>) -> Map<Seq<char>, Seq<char>>
    decreases slots.len(),
{
    if slots.len() == 0 {
        Map::empty()
    } else {
        lane_slots_model(slots.drop_last()).insert(slots.last().repository_id@, slots.last().task_id@)
    }
}

/// The lanes name distinct repositories.
pub open spec fn distinct_lanes(slots: Seq<LaneSlot>) -> bool {
    forall|i: int, j: int|
        0 <= i < j < slots.len() ==> (#[trigger] slots[i]).repository_id@ != (#[trigger] slots[j]).repository_id@
}

proof fn lemma_lane_model(slots: Seq<LaneSlot>, i: int)
    requires
        distinct_lanes(slots),
        0 <= i < slots.len(),
    ensures
        lane_slots_model(slots).contains_key(slots[i].repository_id@),
        lane_slots_model(slots)[slots[i].repository_id@] == slots[i].task_id@,
    decreases slots.len(),
{
    if i < slots.len() - 1 {
        lemma_lane_model(slots.drop_last(), i);
        assert(slots.drop_last()[i] == slots[i]);
    }
}

proof fn lemma_lane_absent(slots: Seq<LaneSlot>, id: Seq<char>)
    requires
        forall|i: int| 0 <= i < slots.len() ==> (#[trigger] slots[i]).repository_id@ != id,
    ensures
        !lane_slots_model(slots).contains_key(id),
    decreases slots.len(),
{
    if slots.len() > 0 {
        lemma_lane_absent(slots.drop_last(), id);
    }
}

proof fn lemma_lane_remove(slots: Seq<LaneSlot>, i: int)
    requires
        distinct_lanes(slots),
        0 <= i < slots.len(),
    ensures
        lane_slots_model(slots.remove(i)) =~= lane_slots_model(slots).remove(slots[i].repository_id@),
        distinct_lanes(slots.remove(i)),
    decreases slots.len(),
{
    let removed = slots.remove(i);
    if i < slots.len() - 1 {
        lemma_lane_remove(slots.drop_last(), i);
        assert(removed.drop_last() =~= slots.drop_last().remove(i));
        assert(removed.last() == slots.last());
        assert(slots[i].repository_id@ != slots.last().repository_id@);
    } else {
        assert(removed =~= slots.drop_last());
        lemma_lane_absent(slots.drop_last(), slots[i].repository_id@);
    }
}

impl LaneSlots {
    /// Repository id to the task running in it.
    pub closed spec fn model(&self) -> Map<Seq<char>, Seq<char>> {
        lane_slots_model(self.slots@)
    }

    /// Each repository holds one lane at most.
    pub closed spec fn wf(&self) -> bool {
        distinct_lanes(self.slots@)
    }

    /// No lane taken.
    pub fn new() -> (res: Self)
        ensures
            res.wf(),
            res.model() == Map::<Seq<char>, Seq<char>>::empty(),
    {
        LaneSlots { slots: Vec::new() }
    }

    fn position(&self, repository_id: &str) -> (res: Option<usize>)
        ensures
            match res {
                Some(i) => i < self.slots@.len() && self.slots@[i as int].repository_id@ == repository_id@,
                None => forall|i: int| 0 <= i < self.slots@.len() ==> (#[trigger] self.slots@[i]).repository_id@ != repository_id@,
            },
    {
        let mut i: usize = 0;
        while i < self.slots.len()
            invariant
                i <= self.slots@.len(),
                forall|k: int| 0 <= k < i ==> (#[trigger] self.slots@[k]).repository_id@ != repository_id@,
            decreases self.slots@.len() - i,
        {
            if str_eq(self.slots[i].repository_id.as_str(), repository_id) {
                return Some(i);
            }
            i = i + 1;
        }
        None
    }

    /// Takes the repository's lane for the task: granted when the lane is
    /// free (it is then the task's) or already the task's.
    pub fn reserve(&mut self, repository_id: &str, task_id: &str) -> (res: bool)
        requires
            old(self).wf(),
        ensures
            final(self).wf(),
            old(self).model().contains_key(repository_id@) ==> {
                &&& res == (old(self).model()[repository_id@] == task_id@)
                &&& final(self).model() == old(self).model()
            },
            !old(self).model().contains_key(repository_id@) ==> {
                &&& res
                &&& final(self).model() == old(self).model().insert(repository_id@, task_id@)
            },
    {
        match self.position(repository_id) {
            Some(i) => {
                proof {
                    lemma_lane_model(self.slots@, i as int);
                }
                str_eq(self.slots[i].task_id.as_str(), task_id)
            },
            None => {
                proof {
                    lemma_lane_absent(self.slots@, repository_id@);
                }
                self.slots.push(LaneSlot { repository_id: repository_id.to_owned(), task_id: task_id.to_owned() });
                proof {
                    assert(self.slots@.drop_last() =~= old(self).slots@);
                }
                true
            },
        }
    }

    /// Frees the repository's lane when the task holds it.
    pub fn release(&mut self, repository_id: &str, task_id: &str)
        requires
            old(self).wf(),
        ensures
            final(self).wf(),
            final(self).model() == (if old(self).model().contains_key(repository_id@)
                && old(self).model()[repository_id@] == task_id@ {
                old(self).model().remove(repository_id@)
            } else {
                old(self).model()
            }),
    {
        match self.position(repository_id) {
            Some(i) => {
                proof {
                    lemma_lane_model(self.slots@, i as int);
                }
                if str_eq(self.slots[i].task_id.as_str(), task_id) {
                    proof {
                        lemma_lane_remove(self.slots@, i as int);
                    }
                    self.slots.remove(i);
                }
            },
            None => {
                proof {
                    lemma_lane_absent(self.slots@, repository_id@);
                }
            },
        }
    }
}

// ---------------------------------------------------------------------------
// After a load, and on attach.
// ---------------------------------------------------------------------------

/// The ids of the queued tasks, in order.
pub open spec fn queued_ids(tasks: Seq<crate::types::LoopxTaskSnapshot>) -> Seq<Seq<char>>
    decreases tasks.len(),
{
    if tasks.len() == 0 {
        Seq::empty()
    } else {
        let rest = queued_ids(tasks.drop_last());
        if tasks.last().state == LoopxTaskState::Queued {
            rest.push(tasks.last().task_id@)
        } else {
            rest
        }
    }
}

impl LoopxPersistedState {
    /// The tasks to drive again after a load: the queued ones, unless the
    /// state could not be loaded or the suite is stopped.
    pub fn tasks_to_enqueue_after_load(&self, writable: bool) -> (res: Vec<String>)
        ensures
            (!writable || self.suspended) ==> res@.len() == 0,
            (writable && !self.suspended) ==> res@.map_values(|s: String| s@) == queued_ids(self.tasks@),
    {
        let mut res: Vec<String> = Vec::new();
        if !writable || self.suspended {
            return res;
        }
        let mut i: usize = 0;
        while i < self.tasks.len()
            invariant
                i <= self.tasks@.len(),
                res@.map_values(|s: String| s@) == queued_ids(self.tasks@.take(i as int)),
            decreases self.tasks@.len() - i,
        {
            proof {
                assert(self.tasks@.take(i + 1).drop_last() =~= self.tasks@.take(i as int));
            }
            if self.tasks[i].state == LoopxTaskState::Queued {
                res.push(self.tasks[i].task_id.clone());
            }
            i = i + 1;
            proof {
                assert(res@.map_values(|s: String| s@) =~= queued_ids(self.tasks@.take(i as int)));
            }
        }
        proof {
            assert(self.tasks@.take(self.tasks@.len() as int) =~= self.tasks@);
        }
        res
    }
}

/// Whether attaching reconciles the goals first: only for a supported
/// workspace, a ready environment and a loaded state.
pub fn attach_reconciles(
    execution_support: LoopxExecutionSupport,
    environment_status: LoopxEnvironmentStatus,
    writable: bool,
) -> (res: bool)
    ensures
        res == (execution_support == LoopxExecutionSupport::Supported && environment_status
            == LoopxEnvironmentStatus::Ready && writable),
{
    execution_support == LoopxExecutionSupport::Supported && environment_status
        == LoopxEnvironmentStatus::Ready && writable
}

/// The snapshot an attached MiniApp gets; when the state could not be
/// loaded, the snapshot says so: unsupported, with the load error as the
/// reason, and a blocked environment.
pub fn attach_snapshot(
    state: &LoopxPersistedState,
    execution_domain: LoopxExecutionDomain,
    execution_support: LoopxExecutionSupport,
    unsupported_reason: Option<String>,
    load_error: Option<String>,
    now_ms: i64,
) -> (res: LoopxSnapshot)
    ensures
        res.stream_id == state.stream_id,
        res.cursor == state.cursor,
        res.revision == state.revision,
        res.execution_domain == execution_domain,
        crate::store::same_tasks(res.tasks@, state.tasks@),
        res.generated_at == now_ms,
        res.suspended == state.suspended,
        match load_error {
            Some(e) => {
                &&& res.execution_support == LoopxExecutionSupport::UnsupportedExecutionDomain
                &&& res.unsupported_reason == Some(e)
                &&& res.environment == (crate::types::LoopxEnvironmentSnapshot {
                    status: LoopxEnvironmentStatus::Blocked,
                    ..state.environment
                })
            },
            None => {
                &&& res.execution_support == execution_support
                &&& res.unsupported_reason == unsupported_reason
                &&& res.environment == state.environment
            },
        },
{
    let mut snapshot = state.snapshot(execution_domain, execution_support, unsupported_reason, now_ms);
    if let Some(error) = load_error {
        snapshot.execution_support = LoopxExecutionSupport::UnsupportedExecutionDomain;
        snapshot.unsupported_reason = Some(error);
        snapshot.environment.status = LoopxEnvironmentStatus::Blocked;
    }
    snapshot
}

} // verus!
