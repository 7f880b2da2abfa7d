//! Static-priority preemptive executor with priority-ceiling resource
//! locking.
//!
//! Tasks and resource slots are wired at configuration time: each task has a
//! fixed priority and activation kind, each slot a declared owner set whose
//! maximum priority is the slot's ceiling. At any instant the
//! highest-priority pending activation above the current mask runs; acquiring
//! a slot raises the mask to the slot's ceiling, so no declared accessor of
//! that slot can preempt while it is held — mutual exclusion without
//! blocking, priority inversion or deadlock. Instants are monotonic hardware
//! cycle counts (`u64`).

use vstd::prelude::*;

verus! {

/// How a task is activated.
#[derive(Clone, Copy, Debug, PartialEq, Eq, Structural)]
pub enum TaskKind {
    /// Runs once at boot.
    Init,
    /// Lowest-priority infinite loop; runs when nothing is pending.
    Idle,
    /// Reactivated at absolute, timer-anchored deadlines.
    Periodic,
    /// Activated by a hardware interrupt.
    Interrupt,
}

/// A task as registered at configuration time.
#[derive(Clone, Copy, Debug, PartialEq, Eq, Structural)]
pub struct TaskDesc {
    /// Static priority; higher is more urgent.
    pub priority: u8,
    pub kind: TaskKind,
}

/// Scheduling failure.
#[derive(Clone, Copy, Debug, PartialEq, Eq, Structural)]
pub enum SchedError {
    /// The activation slot already holds a pending request
    /// (double-scheduling); callers must not silently ignore this.
    AlreadyScheduled,
}

/// Witness of an acquired slot, carrying what release must restore.
#[derive(Clone, Copy, Debug, PartialEq, Eq, Structural)]
pub struct CeilingGuard {
    /// The slot this guard holds.
    pub slot: usize,
    /// The mask in force before acquisition, restored on release.
    pub restore_mask: u8,
}

/// `c` is the ceiling of a slot with the given owners: it bounds every
/// owner's priority, some owner reaches it, and it is zero for no owners.
pub open spec fn ceiling_ok(tasks: Seq<TaskDesc>, owners: Seq<usize>, c: u8) -> bool {
    &&& forall|j: int|
        0 <= j < owners.len() ==> owners[j] < tasks.len() && tasks[owners[j] as int].priority <= c
    &&& (owners.len() > 0 ==> exists|j: int|
        0 <= j < owners.len() && tasks[owners[j] as int].priority == c)
    &&& (owners.len() == 0 ==> c == 0)
}

/// The executor: fixed task table and resource registry, per-task activation
/// state, per-slot hold state, and the current priority mask.
pub struct Executor {
    /// Task table, fixed at configuration time; the task id is the index.
    pub tasks: Vec<TaskDesc>,
    /// Resource registry: per slot, the task ids declared to access it.
    pub slot_owners: Vec<Vec<usize>>,
    /// Per slot, the maximum priority among its owners.
    pub ceilings: Vec<u8>,
    /// Per task, the absolute instant of a scheduled future activation.
    pub queued: Vec<Option<u64>>,
    /// Per task, whether an activation is pending now.
    pub pending: Vec<bool>,
    /// Per slot, the task currently holding it.
    pub holder: Vec<Option<usize>>,
    /// Current effective priority: the highest ceiling among held slots, or
    /// zero when nothing is held. Only strictly higher activations preempt.
    pub mask: u8,
}

impl Executor {
    /// Task `t` is declared to access slot `s`.
    pub open spec fn owns(self, t: usize, s: int) -> bool {
        self.slot_owners@[s]@.contains(t)
    }

    /// Task `t` has a pending activation urgent enough to preempt now.
    pub open spec fn can_preempt(self, t: int) -> bool {
        &&& 0 <= t < self.tasks@.len()
        &&& self.pending@[t]
        &&& self.tasks@[t].priority > self.mask
    }

    /// Configuration-time well-formedness, preserved by every operation: the
    /// state vectors match the tables, every owner id is a task, every
    /// ceiling is the maximum owner priority, and the mask covers the ceiling
    /// of every held slot.
    pub open spec fn wf(self) -> bool {
        &&& self.ceilings@.len() == self.slot_owners@.len()
        &&& self.holder@.len() == self.slot_owners@.len()
        &&& self.queued@.len() == self.tasks@.len()
        &&& self.pending@.len() == self.tasks@.len()
        &&& forall|s: int|
            0 <= s < self.slot_owners@.len() ==> ceiling_ok(
                self.tasks@,
                self.slot_owners@[s]@,
                self.ceilings@[s],
            )
        &&& forall|s: int|
            0 <= s < self.holder@.len() && self.holder@[s] is Some ==> self.ceilings@[s]
                <= self.mask
    }

    /// The configuration-time tables of `a` and `b` agree.
    pub open spec fn same_static(a: Executor, b: Executor) -> bool {
        &&& a.tasks@ == b.tasks@
        &&& a.slot_owners@ == b.slot_owners@
        &&& a.ceilings@ == b.ceilings@
    }

    /// Wire the executor: register the task table and the resource slots, and
    /// compute each slot's ceiling priority as the maximum priority among its
    /// declared owners. No activation is pending, nothing is held.
    pub fn new(tasks: Vec<TaskDesc>, slot_owners: Vec<Vec<usize>>) -> (ex: Executor)
        requires
            forall|s: int, j: int|
                0 <= s < slot_owners@.len() && 0 <= j < slot_owners@[s]@.len()
                    ==> slot_owners@[s]@[j] < tasks@.len(),
        ensures
            ex.wf(),
            ex.tasks@ == tasks@,
            ex.slot_owners@ == slot_owners@,
            ex.mask == 0,
            ex.queued@.len() == tasks@.len(),
            forall|i: int| 0 <= i < ex.queued@.len() ==> ex.queued@[i] is None,
            ex.pending@.len() == tasks@.len(),
            forall|i: int| 0 <= i < ex.pending@.len() ==> !ex.pending@[i],
            ex.holder@.len() == slot_owners@.len(),
            forall|i: int| 0 <= i < ex.holder@.len() ==> ex.holder@[i] is None,
    {
        let n_tasks = tasks.len();
        let n_slots = slot_owners.len();

        let mut ceilings: Vec<u8> = Vec::new();
        let mut s: usize = 0;
        while s < n_slots
            invariant
                s <= n_slots,
                n_slots == slot_owners@.len(),
                forall|s2: int, j2: int|
                    0 <= s2 < slot_owners@.len() && 0 <= j2 < slot_owners@[s2]@.len()
                        ==> slot_owners@[s2]@[j2] < tasks@.len(),
                ceilings@.len() == s,
                forall|k: int|
                    0 <= k < s ==> ceiling_ok(tasks@, slot_owners@[k]@, ceilings@[k]),
            decreases n_slots - s,
        {
            let owners = &slot_owners[s];
            let mut c: u8 = 0;
            let mut j: usize = 0;
            while j < owners.len()
                invariant
                    j <= owners@.len(),
                    owners@ == slot_owners@[s as int]@,
                    0 <= s < slot_owners@.len(),
                    forall|s2: int, j2: int|
                        0 <= s2 < slot_owners@.len() && 0 <= j2 < slot_owners@[s2]@.len()
                            ==> slot_owners@[s2]@[j2] < tasks@.len(),
                    forall|t: int|
                        0 <= t < j ==> tasks@[owners@[t] as int].priority <= c,
                    c == 0 || exists|t: int|
                        0 <= t < j && tasks@[owners@[t] as int].priority == c,
                decreases owners@.len() - j,
            {
                let t = owners[j];
                let p = tasks[t].priority;
                if p > c {
                    c = p;
                }
                j = j + 1;
            }
            proof {
                if c == 0 && owners@.len() > 0 {
                    assert(tasks@[owners@[0] as int].priority == 0);
                }
                assert(ceiling_ok(tasks@, slot_owners@[s as int]@, c));
            }
            ceilings.push(c);
            s = s + 1;
        }

        let mut queued: Vec<Option<u64>> = Vec::new();
        let mut i: usize = 0;
        while i < n_tasks
            invariant
                i <= n_tasks,
                queued@.len() == i,
                forall|k: int| 0 <= k < i ==> queued@[k] is None,
            decreases n_tasks - i,
        {
            queued.push(None);
            i = i + 1;
        }

        let mut pending: Vec<bool> = Vec::new();
        let mut i2: usize = 0;
        while i2 < n_tasks
            invariant
                i2 <= n_tasks,
                pending@.len() == i2,
                forall|k: int| 0 <= k < i2 ==> !pending@[k],
            decreases n_tasks - i2,
        {
            pending.push(false);
            i2 = i2 + 1;
        }

        let mut holder: Vec<Option<usize>> = Vec::new();
        let mut i3: usize = 0;
        while i3 < n_slots
            invariant
                i3 <= n_slots,
                holder@.len() == i3,
                forall|k: int| 0 <= k < i3 ==> holder@[k] is None,
            decreases n_slots - i3,
        {
            holder.push(None);
            i3 = i3 + 1;
        }

        Executor { tasks, slot_owners, ceilings, queued, pending, holder, mask: 0 }
    }

    /// Post an immediate activation request for task `t`, as a hardware
    /// interrupt does; idempotent.
    pub fn pend(&mut self, t: usize)
        requires
            old(self).wf(),
            t < old(self).tasks@.len(),
        ensures
            final(self).wf(),
            Executor::same_static(*final(self), *old(self)),
            final(self).pending@ == old(self).pending@.update(t as int, true),
            final(self).queued@ == old(self).queued@,
            final(self).holder@ == old(self).holder@,
            final(self).mask == old(self).mask,
    {
        self.pending[t] = true;
    }

    /// Clear task `t`'s pending activation once it has run to completion.
    pub fn complete(&mut self, t: usize)
        requires
            old(self).wf(),
            t < old(self).tasks@.len(),
        ensures
            final(self).wf(),
            Executor::same_static(*final(self), *old(self)),
            final(self).pending@ == old(self).pending@.update(t as int, false),
            final(self).queued@ == old(self).queued@,
            final(self).holder@ == old(self).holder@,
            final(self).mask == old(self).mask,
    {
        self.pending[t] = false;
    }

    /// Request a timer-anchored activation of task `t` at the absolute
    /// instant `at`. Fails, changing nothing, when an activation is already
    /// queued for `t` — a double-schedule the caller must handle.
    pub fn schedule(&mut self, t: usize, at: u64) -> (r: Result<(), SchedError>)
        requires
            old(self).wf(),
            t < old(self).tasks@.len(),
        ensures
            final(self).wf(),
            if old(self).queued@[t as int] is Some {
                &&& r == Err::<(), SchedError>(SchedError::AlreadyScheduled)
                &&& *final(self) == *old(self)
            } else {
                &&& r == Ok::<(), SchedError>(())
                &&& Executor::same_static(*final(self), *old(self))
                &&& final(self).queued@ == old(self).queued@.update(t as int, Some(at))
                &&& final(self).pending@ == old(self).pending@
                &&& final(self).holder@ == old(self).holder@
                &&& final(self).mask == old(self).mask
            },
    {
        if self.queued[t].is_some() {
            Err(SchedError::AlreadyScheduled)
        } else {
            self.queued[t] = Some(at);
            Ok(())
        }
    }

    /// The hardware timer reached `now`: turn every queued activation whose
    /// instant has arrived into a pending one.
    pub fn fire_timer(&mut self, now: u64)
        requires
            old(self).wf(),
        ensures
            final(self).wf(),
            Executor::same_static(*final(self), *old(self)),
            final(self).holder@ == old(self).holder@,
            final(self).mask == old(self).mask,
            final(self).queued@.len() == old(self).queued@.len(),
            final(self).pending@.len() == old(self).pending@.len(),
            forall|i: int|
                0 <= i < old(self).queued@.len() ==> if (old(self).queued@[i] matches Some(at)
                    && at <= now) {
                    &&& final(self).queued@[i] is None
                    &&& final(self).pending@[i]
                } else {
                    &&& final(self).queued@[i] == old(self).queued@[i]
                    &&& final(self).pending@[i] == old(self).pending@[i]
                },
    {
        let n = self.tasks.len();
        let mut i: usize = 0;
        while i < n
            invariant
                i <= n,
                n == self.tasks@.len(),
                self.wf(),
                Executor::same_static(*self, *old(self)),
                self.holder@ == old(self).holder@,
                self.mask == old(self).mask,
                self.queued@.len() == old(self).queued@.len(),
                self.pending@.len() == old(self).pending@.len(),
                forall|k: int|
                    0 <= k < i ==> if (old(self).queued@[k] matches Some(at) && at <= now) {
                        &&& self.queued@[k] is None
                        &&& self.pending@[k]
                    } else {
                        &&& self.queued@[k] == old(self).queued@[k]
                        &&& self.pending@[k] == old(self).pending@[k]
                    },
                forall|k: int|
                    i <= k < n ==> self.queued@[k] == old(self).queued@[k] && self.pending@[k]
                        == old(self).pending@[k],
            decreases n - i,
        {
            let due = match self.queued[i] {
                Some(at) => at <= now,
                None => false,
            };
            if due {
                self.queued[i] = None;
                self.pending[i] = true;
            }
            i = i + 1;
        }
    }

    /// Dispatch rule: the highest-priority pending activation that is urgent
    /// enough to preempt (strictly above the mask); ties go to the lowest
    /// task id. `None` means nothing may preempt — the idle loop, or the
    /// current hold, continues.
    pub fn dispatch(&self) -> (r: Option<usize>)
        requires
            self.wf(),
        ensures
            match r {
                Some(t) => {
                    &&& self.can_preempt(t as int)
                    &&& forall|u: int|
                        0 <= u < self.tasks@.len() && self.pending@[u] ==> self.tasks@[u].priority
                            <= self.tasks@[t as int].priority
                    &&& forall|u: int|
                        0 <= u < t && self.pending@[u] ==> self.tasks@[u].priority
                            < self.tasks@[t as int].priority
                },
                None => forall|u: int| 0 <= u < self.tasks@.len() ==> !self.can_preempt(u),
            },
    {
        let mut best: Option<usize> = None;
        let mut i: usize = 0;
        while i < self.tasks.len()
            invariant
                self.wf(),
                i <= self.tasks@.len(),
                match best {
                    Some(t) => {
                        &&& t < i
                        &&& self.pending@[t as int]
                        &&& self.tasks@[t as int].priority > self.mask
                        &&& forall|u: int|
                            0 <= u < i && self.pending@[u] ==> self.tasks@[u].priority
                                <= self.tasks@[t as int].priority
                        &&& forall|u: int|
                            0 <= u < t && self.pending@[u] ==> self.tasks@[u].priority
                                < self.tasks@[t as int].priority
                    },
                    None => forall|u: int|
                        0 <= u < i && self.pending@[u] ==> self.tasks@[u].priority <= self.mask,
                },
            decreases self.tasks@.len() - i,
        {
            if self.pending[i] {
                let p = self.tasks[i].priority;
                if p > self.mask {
                    let better = match best {
                        Some(t) => p > self.tasks[t].priority,
                        None => true,
                    };
                    if better {
                        best = Some(i);
                    }
                }
            }
            i = i + 1;
        }
        best
    }

    /// Task `t` enters its scoped access to slot `s`: record the hold and
    /// raise the mask to the slot's ceiling. The returned guard carries the
    /// prior mask for release. The slot must be free — and, by
    /// [`lemma_ceiling_excludes_contenders`], no accessor of a held slot can
    /// run to contend for it.
    pub fn acquire(&mut self, t: usize, s: usize) -> (g: CeilingGuard)
        requires
            old(self).wf(),
            s < old(self).slot_owners@.len(),
            t < old(self).tasks@.len(),
            old(self).owns(t, s as int),
            old(self).holder@[s as int] is None,
        ensures
            final(self).wf(),
            Executor::same_static(*final(self), *old(self)),
            final(self).queued@ == old(self).queued@,
            final(self).pending@ == old(self).pending@,
            final(self).holder@ == old(self).holder@.update(s as int, Some(t)),
            final(self).mask == if old(self).ceilings@[s as int] > old(self).mask {
                old(self).ceilings@[s as int]
            } else {
                old(self).mask
            },
            g.slot == s,
            g.restore_mask == old(self).mask,
    {
        let g = CeilingGuard { slot: s, restore_mask: self.mask };
        let c = self.ceilings[s];
        if c > self.mask {
            self.mask = c;
        }
        self.holder[s] = Some(t);
        g
    }

    /// Leave the scoped access `g` witnesses: free the slot and restore the
    /// prior mask, on every exit path. Accesses nest, so every other slot
    /// still held was acquired earlier, under a mask the restored one covers.
    pub fn release(&mut self, g: CeilingGuard)
        requires
            old(self).wf(),
            g.slot < old(self).holder@.len(),
            old(self).holder@[g.slot as int] is Some,
            g.restore_mask <= old(self).mask,
            forall|s2: int|
                0 <= s2 < old(self).holder@.len() && s2 != g.slot && old(self).holder@[s2] is Some
                    ==> old(self).ceilings@[s2] <= g.restore_mask,
        ensures
            final(self).wf(),
            Executor::same_static(*final(self), *old(self)),
            final(self).queued@ == old(self).queued@,
            final(self).pending@ == old(self).pending@,
            final(self).holder@ == old(self).holder@.update(g.slot as int, None::<usize>),
            final(self).mask == g.restore_mask,
    {
        self.holder[g.slot] = None;
        self.mask = g.restore_mask;
    }
}

/// Law (priority-ceiling exclusion): while any task holds a slot, no other
/// declared accessor of that slot — however high its priority — can preempt:
/// its activation stays pending, deferred until release, so no interleaved
/// access to the slot's state is possible.
pub proof fn lemma_ceiling_excludes_contenders(ex: Executor, s: int, u: usize)
    requires
        ex.wf(),
        0 <= s < ex.slot_owners@.len(),
        ex.holder@[s] is Some,
        ex.owns(u, s),
    ensures
        ex.tasks@[u as int].priority <= ex.mask,
        !ex.can_preempt(u as int),
{
    let owners = ex.slot_owners@[s]@;
    assert(ceiling_ok(ex.tasks@, owners, ex.ceilings@[s]));
    let j = choose|j: int| 0 <= j < owners.len() && owners[j] == u;
    assert(ex.tasks@[owners[j] as int].priority <= ex.ceilings@[s]);
}

} // verus!
