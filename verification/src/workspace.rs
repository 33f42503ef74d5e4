//! Global Workspace: the system's limited-capacity broadcast mechanism.
//!
//! Only `capacity` agents can be "conscious" (engaged in LLM deliberation)
//! at once.  An agent that finds the workspace full either degrades to
//! procedural (reflex-only) execution or waits in a queue; when a slot is
//! released, the waiting agent of highest priority is admitted (the one
//! queued last among equals).
//!
//! Times are in milliseconds; each operation has a form that takes the
//! clock reading as an argument.

use vstd::prelude::*;
use std::collections::VecDeque;
use crate::clock::{elapsed, now_ms};
use crate::text::str_eq;

verus! {

/// How long an agent may wait before the wait counts as an attentional
/// blink (1 s).
pub const BLINK_THRESHOLD_MS: u64 = 1_000;

/// Priority for workspace admission.
#[derive(Debug, Clone, Copy, PartialEq, Eq, Structural, PartialOrd, Ord)]
pub enum Priority {
    Low,
    Normal,
    High,
    Critical,
}

/// The rank of a priority: Low < Normal < High < Critical.
pub open spec fn priority_rank(p: Priority) -> int {
    match p {
        Priority::Low => 0,
        Priority::Normal => 1,
        Priority::High => 2,
        Priority::Critical => 3,
    }
}

/// The rank of a priority.
pub fn rank_of(p: Priority) -> (r: u8)
    ensures
        r == priority_rank(p),
{
    match p {
        Priority::Low => 0,
        Priority::Normal => 1,
        Priority::High => 2,
        Priority::Critical => 3,
    }
}

/// A slot in the global workspace: an agent currently engaged in
/// "conscious" (LLM) processing.
#[derive(Debug, Clone)]
pub struct WorkspaceSlot {
    /// The agent occupying this slot
    pub agent_id: String,
    /// When the agent entered the workspace (ms)
    pub entered_at_ms: u64,
    /// Priority of this workspace entry
    pub priority: Priority,
}

/// An agent waiting for workspace access.
#[derive(Debug, Clone)]
pub struct WaitingAgent {
    /// The agent requesting workspace access
    pub agent_id: String,
    /// When the agent was enqueued (ms)
    pub enqueued_at_ms: u64,
    /// Priority of this request
    pub priority: Priority,
    /// Whether this agent can fall back to procedural (reflex-only) mode
    pub can_degrade_to_procedural: bool,
}

/// Statistics about global workspace usage.
#[derive(Debug, Clone, Copy, PartialEq, Eq, Structural)]
pub struct WorkspaceStats {
    /// Total admissions to the workspace
    pub total_admissions: u64,
    /// Total rejections (workspace full)
    pub total_rejections: u64,
    /// Total degradations (agent fell back to procedural mode)
    pub total_degradations: u64,
    /// Total time agents spent waiting (microseconds)
    pub total_wait_time_us: u64,
    /// Peak number of agents in the workspace at once (the peak cognitive
    /// load is this number over the capacity)
    pub peak_active_contexts: usize,
    /// Attentional blink events (agent had to wait > 1 second)
    pub attentional_blinks: u64,
}

/// `x + 1`, stopping at the largest `u64`.
pub open spec fn bump(x: u64) -> u64 {
    if x < u64::MAX {
        (x + 1) as u64
    } else {
        x
    }
}

/// `x + n`, stopping at the largest `u64`.
pub open spec fn bump_by(x: u64, n: int) -> u64 {
    if x + n <= u64::MAX {
        (x + n) as u64
    } else {
        u64::MAX
    }
}

/// The abstract state of a workspace.
pub struct WorkspaceModel {
    pub capacity: nat,
    pub active: Seq<WorkspaceSlot>,
    pub waiting: Seq<WaitingAgent>,
    pub stats: WorkspaceStats,
}

/// Admitting `agent` when the clock reads `now`: the new state and the slot
/// handed out.
pub open spec fn admit_model(m: WorkspaceModel, agent: WaitingAgent, now: u64) -> (
    WorkspaceModel,
    Option<WorkspaceSlot>,
) {
    if m.active.len() < m.capacity {
        let slot = WorkspaceSlot {
            agent_id: agent.agent_id,
            entered_at_ms: now,
            priority: agent.priority,
        };
        let active = m.active.push(slot);
        let peak = if active.len() > m.stats.peak_active_contexts {
            active.len() as usize
        } else {
            m.stats.peak_active_contexts
        };
        (
            WorkspaceModel {
                active,
                stats: WorkspaceStats {
                    total_admissions: bump(m.stats.total_admissions),
                    peak_active_contexts: peak,
                    ..m.stats
                },
                ..m
            },
            Some(slot),
        )
    } else if agent.can_degrade_to_procedural {
        (
            WorkspaceModel {
                stats: WorkspaceStats {
                    total_rejections: bump(m.stats.total_rejections),
                    total_degradations: bump(m.stats.total_degradations),
                    ..m.stats
                },
                ..m
            },
            None,
        )
    } else {
        (
            WorkspaceModel {
                waiting: m.waiting.push(agent),
                stats: WorkspaceStats { total_rejections: bump(m.stats.total_rejections), ..m.stats },
                ..m
            },
            None,
        )
    }
}

/// `i` is the waiting agent of highest priority, the last one among equals.
pub open spec fn is_next_waiter(q: Seq<WaitingAgent>, i: int) -> bool {
    &&& 0 <= i < q.len()
    &&& forall|j: int| 0 <= j < q.len() ==> priority_rank(#[trigger] q[j].priority) <= priority_rank(q[i].priority)
    &&& forall|j: int| i < j < q.len() ==> priority_rank(#[trigger] q[j].priority) < priority_rank(q[i].priority)
}

/// The active slots once `agent_id` has left (the first slot it holds).
pub open spec fn without_agent(active: Seq<WorkspaceSlot>, agent_id: Seq<char>) -> Seq<WorkspaceSlot> {
    if exists|k: int| 0 <= k < active.len() && (#[trigger] active[k]).agent_id@ == agent_id {
        let k = choose|k: int|
            0 <= k < active.len() && (#[trigger] active[k]).agent_id@ == agent_id && forall|j: int|
                0 <= j < k ==> active[j].agent_id@ != agent_id;
        active.remove(k)
    } else {
        active
    }
}

/// Releasing `agent_id` when the clock reads `now`: the slot it holds is
/// freed, and the next waiter (if any) goes through admission.
pub open spec fn release_model(m: WorkspaceModel, agent_id: Seq<char>, now: u64) -> (
    WorkspaceModel,
    Option<WorkspaceSlot>,
) {
    let freed = WorkspaceModel { active: without_agent(m.active, agent_id), ..m };
    if m.waiting.len() == 0 {
        (freed, None)
    } else {
        let i = choose|i: int| is_next_waiter(m.waiting, i);
        admit_model(WorkspaceModel { waiting: m.waiting.remove(i), ..freed }, m.waiting[i], now)
    }
}

/// Number of waiting agents that have waited longer than the blink threshold.
pub open spec fn blinking(q: Seq<WaitingAgent>, now: u64) -> nat
    decreases q.len(),
{
    if q.len() == 0 {
        0
    } else {
        blinking(q.drop_last(), now) + if elapsed(q.last().enqueued_at_ms, now) > BLINK_THRESHOLD_MS {
            1nat
        } else {
            0nat
        }
    }
}

/// The Global Workspace: a limited-capacity mechanism for "conscious"
/// processing (LLM deliberation).
#[derive(Debug)]
pub struct GlobalWorkspace {
    /// Maximum concurrent LLM contexts
    capacity: usize,
    /// Currently active contexts (agents being served)
    active_contexts: Vec<WorkspaceSlot>,
    /// Queue of agents waiting for workspace access
    waiting_queue: VecDeque<WaitingAgent>,
    /// Statistics
    stats: WorkspaceStats,
}

impl GlobalWorkspace {
    /// The abstract state.
    pub closed spec fn model(&self) -> WorkspaceModel {
        WorkspaceModel {
            capacity: self.capacity as nat,
            active: self.active_contexts@,
            waiting: self.waiting_queue@,
            stats: self.stats,
        }
    }

    /// The workspace never holds more agents than its capacity.
    pub closed spec fn wf(&self) -> bool {
        self.active_contexts@.len() <= self.capacity
    }

    /// Create a new global workspace with the given capacity
    pub fn new(capacity: usize) -> (w: Self)
        ensures
            w.wf(),
            w.model().capacity == capacity,
            w.model().active.len() == 0,
            w.model().waiting.len() == 0,
            w.model().stats == (WorkspaceStats {
                total_admissions: 0,
                total_rejections: 0,
                total_degradations: 0,
                total_wait_time_us: 0,
                peak_active_contexts: 0,
                attentional_blinks: 0,
            }),
    {
        Self {
            capacity,
            active_contexts: Vec::new(),
            waiting_queue: VecDeque::new(),
            stats: WorkspaceStats {
                total_admissions: 0,
                total_rejections: 0,
                total_degradations: 0,
                total_wait_time_us: 0,
                peak_active_contexts: 0,
                attentional_blinks: 0,
            },
        }
    }

    /// The maximum number of concurrent agents.
    pub fn capacity(&self) -> (c: usize)
        ensures
            c == self.model().capacity,
    {
        self.capacity
    }

    /// Whether the workspace is at capacity
    pub fn is_full(&self) -> (b: bool)
        ensures
            b == (self.model().active.len() >= self.model().capacity),
    {
        self.active_contexts.len() >= self.capacity
    }

    /// Admit an agent to the global workspace (make it "conscious") with the
    /// clock reading `now`. Returns the slot if admitted, None if full.
    pub fn admit_at(&mut self, agent: WaitingAgent, now: u64) -> (r: Option<WorkspaceSlot>)
        requires
            old(self).wf(),
        ensures
            final(self).wf(),
            (final(self).model(), r) == admit_model(old(self).model(), agent, now),
    {
        if self.active_contexts.len() < self.capacity {
            let slot = WorkspaceSlot {
                agent_id: agent.agent_id.clone(),
                entered_at_ms: now,
                priority: agent.priority,
            };
            let handed = WorkspaceSlot {
                agent_id: agent.agent_id,
                entered_at_ms: now,
                priority: agent.priority,
            };
            self.active_contexts.push(slot);
            self.stats.total_admissions = self.stats.total_admissions.saturating_add(1);
            if self.active_contexts.len() > self.stats.peak_active_contexts {
                self.stats.peak_active_contexts = self.active_contexts.len();
            }
            Some(handed)
        } else {
            // Workspace full: attentional blink
            self.stats.total_rejections = self.stats.total_rejections.saturating_add(1);
            if agent.can_degrade_to_procedural {
                // Agent falls back to reflex-only execution (unconscious)
                self.stats.total_degradations = self.stats.total_degradations.saturating_add(1);
                None
            } else {
                // Agent must wait
                self.waiting_queue.push_back(agent);
                None
            }
        }
    }

    /// Admit an agent at the current time.
    pub fn admit_agent(&mut self, agent: WaitingAgent) -> (r: Option<WorkspaceSlot>)
        requires
            old(self).wf(),
        ensures
            final(self).wf(),
            exists|now: u64| (final(self).model(), r) == admit_model(old(self).model(), agent, now),
    {
        let now = now_ms();
        self.admit_at(agent, now)
    }

    /// Index of the waiting agent of highest priority (last among equals).
    fn next_waiter(&self) -> (i: usize)
        requires
            self.waiting_queue@.len() > 0,
        ensures
            is_next_waiter(self.waiting_queue@, i as int),
    {
        let q = &self.waiting_queue;
        let mut best: usize = 0;
        let mut k: usize = 1;
        while k < q.len()
            invariant
                q@ == self.waiting_queue@,
                q@.len() > 0,
                1 <= k <= q@.len(),
                best < k,
                forall|j: int| 0 <= j < k ==> priority_rank(#[trigger] q@[j].priority) <= priority_rank(q@[best as int].priority),
                forall|j: int| best < j < k ==> priority_rank(#[trigger] q@[j].priority) < priority_rank(q@[best as int].priority),
            decreases q.len() - k,
        {
            if rank_of(q[k].priority) >= rank_of(q[best].priority) {
                best = k;
            }
            k += 1;
        }
        best
    }

    /// Position of the first active slot held by `agent_id`.
    fn find_active(&self, agent_id: &str) -> (r: Option<usize>)
        ensures
            match r {
                Some(k) => k < self.active_contexts@.len() && self.active_contexts@[k as int].agent_id@ == agent_id@
                    && forall|j: int| 0 <= j < k ==> self.active_contexts@[j].agent_id@ != agent_id@,
                None => forall|j: int| 0 <= j < self.active_contexts@.len() ==> (#[trigger] self.active_contexts@[j]).agent_id@ != agent_id@,
            },
    {
        let mut k: usize = 0;
        while k < self.active_contexts.len()
            invariant
                k <= self.active_contexts@.len(),
                forall|j: int| 0 <= j < k ==> self.active_contexts@[j].agent_id@ != agent_id@,
            decreases self.active_contexts.len() - k,
        {
            if str_eq(self.active_contexts[k].agent_id.as_str(), agent_id) {
                return Some(k);
            }
            k += 1;
        }
        None
    }

    /// Release a workspace slot (agent finishes deliberation) with the clock
    /// reading `now`. Admits the highest-priority waiting agent.
    pub fn release_at(&mut self, agent_id: &str, now: u64) -> (r: Option<WorkspaceSlot>)
        requires
            old(self).wf(),
        ensures
            final(self).wf(),
            (final(self).model(), r) == release_model(old(self).model(), agent_id@, now),
    {
        let ghost m0 = self.model();
        match self.find_active(agent_id) {
            Some(idx) => {
                let ghost k = choose|k: int|
                    0 <= k < m0.active.len() && (#[trigger] m0.active[k]).agent_id@ == agent_id@ && forall|j: int|
                        0 <= j < k ==> m0.active[j].agent_id@ != agent_id@;
                proof {
                    assert(m0.active[idx as int].agent_id@ == agent_id@);
                    if k < idx {
                        assert(m0.active[k].agent_id@ != agent_id@);
                    }
                    if idx < k {
                        assert(m0.active[idx as int].agent_id@ != agent_id@);
                    }
                    assert(k == idx);
                }
                self.active_contexts.remove(idx);
            },
            None => {},
        }
        assert(self.active_contexts@ == without_agent(m0.active, agent_id@));
        // Admit next waiting agent (priority-based scheduling)
        if self.waiting_queue.len() == 0 {
            return None;
        }
        let best = self.next_waiter();
        let ghost i = choose|i: int| is_next_waiter(m0.waiting, i);
        proof {
            assert(is_next_waiter(m0.waiting, best as int));
            if i < best {
                assert(priority_rank(m0.waiting[best as int].priority) < priority_rank(m0.waiting[i].priority));
            }
            if best < i {
                assert(priority_rank(m0.waiting[i].priority) < priority_rank(m0.waiting[best as int].priority));
            }
            assert(i == best);
        }
        match self.waiting_queue.remove(best) {
            Some(next) => self.admit_at(next, now),
            None => None,
        }
    }

    /// Release a workspace slot at the current time.
    pub fn release(&mut self, agent_id: &str) -> (r: Option<WorkspaceSlot>)
        requires
            old(self).wf(),
        ensures
            final(self).wf(),
            exists|now: u64| (final(self).model(), r) == release_model(old(self).model(), agent_id@, now),
    {
        let now = now_ms();
        self.release_at(agent_id, now)
    }

    /// Get the number of agents currently in the workspace
    pub fn active_count(&self) -> (n: usize)
        ensures
            n == self.model().active.len(),
    {
        self.active_contexts.len()
    }

    /// Get the number of agents waiting for workspace access
    pub fn waiting_count(&self) -> (n: usize)
        ensures
            n == self.model().waiting.len(),
    {
        self.waiting_queue.len()
    }

    /// Get workspace statistics
    pub fn stats(&self) -> (s: &WorkspaceStats)
        ensures
            *s == self.model().stats,
    {
        &self.stats
    }

    /// Count the agents that have waited longer than the blink threshold
    /// when the clock reads `now`, and add them to the blink statistic.
    pub fn check_attentional_blinks_at(&mut self, now: u64) -> (n: usize)
        requires
            old(self).wf(),
        ensures
            final(self).wf(),
            n == blinking(old(self).model().waiting, now),
            final(self).model() == (WorkspaceModel {
                stats: WorkspaceStats {
                    attentional_blinks: bump_by(old(self).model().stats.attentional_blinks, n as int),
                    ..old(self).model().stats
                },
                ..old(self).model()
            }),
    {
        let mut count: usize = 0;
        let mut k: usize = 0;
        let ghost q = self.waiting_queue@;
        while k < self.waiting_queue.len()
            invariant
                q == self.waiting_queue@,
                k <= q.len(),
                count <= k,
                count == blinking(q.take(k as int), now),
            decreases self.waiting_queue.len() - k,
        {
            let t = self.waiting_queue[k].enqueued_at_ms;
            let waited: u64 = if now >= t { now - t } else { 0 };
            proof {
                assert(q.take(k + 1).drop_last() =~= q.take(k as int));
            }
            if waited > BLINK_THRESHOLD_MS {
                count += 1;
            }
            k += 1;
        }
        assert(q.take(q.len() as int) =~= q);
        self.stats.attentional_blinks = self.stats.attentional_blinks.saturating_add(count as u64);
        count
    }

    /// Count the attentional blinks at the current time.
    pub fn check_attentional_blinks(&mut self) -> (n: usize)
        requires
            old(self).wf(),
        ensures
            final(self).wf(),
            exists|now: u64|
                {
                    &&& n == blinking(old(self).model().waiting, now)
                    &&& final(self).model() == (WorkspaceModel {
                        stats: WorkspaceStats {
                            attentional_blinks: bump_by(old(self).model().stats.attentional_blinks, n as int),
                            ..old(self).model().stats
                        },
                        ..old(self).model()
                    })
                },
    {
        let now = now_ms();
        self.check_attentional_blinks_at(now)
    }
}

/// Admission never overfills the workspace, and release keeps it within
/// capacity as well.
pub proof fn law_capacity_respected(m: WorkspaceModel, agent: WaitingAgent, agent_id: Seq<char>, now: u64)
    requires
        m.active.len() <= m.capacity,
    ensures
        admit_model(m, agent, now).0.active.len() <= m.capacity,
        release_model(m, agent_id, now).0.active.len() <= m.capacity,
{
    lemma_without_agent_len(m.active, agent_id);
}

/// Every agent handed to admission ends up in exactly one place: in a slot
/// (and the result is that slot), degraded to procedural mode, or at the
/// back of the queue.
pub proof fn law_admission_accounts_for_agent(m: WorkspaceModel, agent: WaitingAgent, now: u64)
    ensures
        ({
            let (m2, r) = admit_model(m, agent, now);
            ||| (r is Some && r->0.agent_id == agent.agent_id && m2.active == m.active.push(r->0)
                && m2.waiting == m.waiting)
            ||| (r is None && agent.can_degrade_to_procedural && m2.active == m.active
                && m2.waiting == m.waiting && m2.stats.total_degradations == bump(
                m.stats.total_degradations,
            ))
            ||| (r is None && !agent.can_degrade_to_procedural && m2.active == m.active
                && m2.waiting == m.waiting.push(agent))
        }),
{
}

/// When the released agent held a slot and agents are waiting, the waiter
/// of highest priority (the last queued among equals) takes the freed slot
/// and leaves the queue.
pub proof fn law_release_admits_highest_priority(m: WorkspaceModel, agent_id: Seq<char>, now: u64)
    requires
        m.active.len() <= m.capacity,
        exists|k: int| 0 <= k < m.active.len() && (#[trigger] m.active[k]).agent_id@ == agent_id,
        m.waiting.len() > 0,
    ensures
        ({
            let (m2, r) = release_model(m, agent_id, now);
            let i = choose|i: int| is_next_waiter(m.waiting, i);
            &&& is_next_waiter(m.waiting, i)
            &&& r is Some
            &&& r->0.agent_id == m.waiting[i].agent_id
            &&& r->0.priority == m.waiting[i].priority
            &&& m2.waiting == m.waiting.remove(i)
            &&& m2.active.len() == m.active.len()
        }),
{
    lemma_next_waiter_exists(m.waiting);
    lemma_without_agent_len(m.active, agent_id);
}

/// A non-empty queue has a next waiter.
pub proof fn lemma_next_waiter_exists(q: Seq<WaitingAgent>)
    requires
        q.len() > 0,
    ensures
        exists|i: int| is_next_waiter(q, i),
    decreases q.len(),
{
    if q.len() == 1 {
        assert(is_next_waiter(q, 0));
    } else {
        let p = q.drop_last();
        lemma_next_waiter_exists(p);
        let i = choose|i: int| is_next_waiter(p, i);
        let l = q.len() - 1;
        if priority_rank(q[l].priority) >= priority_rank(p[i].priority) {
            assert forall|j: int| 0 <= j < q.len() implies priority_rank(#[trigger] q[j].priority) <= priority_rank(q[l].priority) by {
                if j < l {
                    assert(q[j] == p[j]);
                }
            }
            assert(is_next_waiter(q, l));
        } else {
            assert forall|j: int| 0 <= j < q.len() implies priority_rank(#[trigger] q[j].priority) <= priority_rank(q[i].priority) by {
                if j < l {
                    assert(q[j] == p[j]);
                }
            }
            assert forall|j: int| i < j < q.len() implies priority_rank(#[trigger] q[j].priority) < priority_rank(q[i].priority) by {
                if j < l {
                    assert(q[j] == p[j]);
                }
            }
            assert(is_next_waiter(q, i));
        }
    }
}

/// If some slot is held by `agent_id`, there is a first such slot.
pub proof fn lemma_first_holder(active: Seq<WorkspaceSlot>, agent_id: Seq<char>)
    requires
        exists|k: int| 0 <= k < active.len() && (#[trigger] active[k]).agent_id@ == agent_id,
    ensures
        exists|k: int|
            0 <= k < active.len() && (#[trigger] active[k]).agent_id@ == agent_id && forall|j: int|
                0 <= j < k ==> active[j].agent_id@ != agent_id,
    decreases active.len(),
{
    let p = active.drop_last();
    if exists|k: int| 0 <= k < p.len() && (#[trigger] p[k]).agent_id@ == agent_id {
        lemma_first_holder(p, agent_id);
        let k = choose|k: int|
            0 <= k < p.len() && (#[trigger] p[k]).agent_id@ == agent_id && forall|j: int|
                0 <= j < k ==> p[j].agent_id@ != agent_id;
        assert(active[k] == p[k]);
        assert forall|j: int| 0 <= j < k implies active[j].agent_id@ != agent_id by {
            assert(active[j] == p[j]);
        }
    } else {
        let l = active.len() - 1;
        assert forall|j: int| 0 <= j < l implies active[j].agent_id@ != agent_id by {
            assert(active[j] == p[j]);
        }
        let w = choose|k: int| 0 <= k < active.len() && (#[trigger] active[k]).agent_id@ == agent_id;
        if w < l {
            assert(p[w] == active[w]);
        }
        assert(active[l].agent_id@ == agent_id);
    }
}

/// Releasing frees at most one slot: exactly one when the agent held one.
pub proof fn lemma_without_agent_len(active: Seq<WorkspaceSlot>, agent_id: Seq<char>)
    ensures
        (exists|k: int| 0 <= k < active.len() && (#[trigger] active[k]).agent_id@ == agent_id)
            ==> without_agent(active, agent_id).len() == active.len() - 1,
        !(exists|k: int| 0 <= k < active.len() && (#[trigger] active[k]).agent_id@ == agent_id)
            ==> without_agent(active, agent_id) == active,
{
    if exists|k: int| 0 <= k < active.len() && (#[trigger] active[k]).agent_id@ == agent_id {
        lemma_first_holder(active, agent_id);
    }
}

} // verus!
