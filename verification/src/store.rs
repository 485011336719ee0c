//! The task store: the record of tasks and their lifecycle status.
//!
//! The store assigns identifiers at creation, hands each `New` task to at
//! most one claimant (oldest first), applies progress updates, and makes the
//! terminal transition idempotent for identical payloads. Each operation is
//! a single atomic step of the store's state; the claim step in particular
//! is a conditional update, never a separate read followed by a write.

use vstd::prelude::*;
use crate::task::{Task, TaskStatus, bytes_eq};

verus! {

/// Errors raised by the store.
#[derive(Clone, Copy, Debug, PartialEq, Eq, Structural)]
pub enum StoreError {
    /// The backing store is unreachable or a query failed.
    Storage,
    /// No task with the given identifier exists.
    NotFound,
    /// The requested update violates the task state machine.
    InvalidTransition,
}

/// Identifiers equal positions: the task at index `i` carries id `i`.
pub open spec fn wf_tasks(s: Seq<Task>) -> bool {
    forall|i: int| 0 <= i < s.len() ==> (#[trigger] s[i]).id == i as u64
}

/// The task a creation request appends.
pub open spec fn spec_new_task(id: u64, owner: Option<String>, prompt: String) -> Task {
    Task { id, owner, prompt, status: TaskStatus::New }
}

pub open spec fn has_new_task(s: Seq<Task>) -> bool {
    exists|i: int| 0 <= i < s.len() && (#[trigger] s[i]).status is New
}

/// Position of the oldest task still in `New`, or -1 if there is none.
pub open spec fn first_new_index(s: Seq<Task>) -> int
    decreases s.len(),
{
    if s.len() == 0 {
        -1
    } else if s[0].status is New {
        0
    } else {
        let rest = first_new_index(s.drop_first());
        if rest < 0 {
            -1
        } else {
            rest + 1
        }
    }
}

/// A freshly claimed task: same identity and payload, step count reset.
pub open spec fn claimed_task(t: Task) -> Task {
    Task {
        id: t.id,
        owner: t.owner,
        prompt: t.prompt,
        status: TaskStatus::InProgress { current_step: 0, total_steps: 0 },
    }
}

/// One atomic claim step: the oldest `New` task, if any, moves to
/// `InProgress` and is returned; otherwise nothing changes.
pub open spec fn claim_spec(pre: Seq<Task>, post: Seq<Task>, r: Option<Task>) -> bool {
    if has_new_task(pre) {
        let k = first_new_index(pre);
        &&& r is Some
        &&& r->0 == claimed_task(pre[k])
        &&& post == pre.update(k, claimed_task(pre[k]))
    } else {
        &&& r is None
        &&& post == pre
    }
}

/// One progress-report step: an in-place status update, refused once the
/// task is terminal.
pub open spec fn progress_spec(
    pre: Seq<Task>,
    post: Seq<Task>,
    id: u64,
    current_step: u32,
    total_steps: u32,
    r: Result<(), StoreError>,
) -> bool {
    if (id as int) >= pre.len() {
        &&& post == pre
        &&& r == Result::<(), StoreError>::Err(StoreError::NotFound)
    } else if pre[id as int].status.is_terminal() {
        &&& post == pre
        &&& r == Result::<(), StoreError>::Err(StoreError::InvalidTransition)
    } else {
        let t = pre[id as int];
        &&& r is Ok
        &&& post == pre.update(
            id as int,
            Task {
                id: t.id,
                owner: t.owner,
                prompt: t.prompt,
                status: TaskStatus::InProgress { current_step, total_steps },
            },
        )
    }
}

/// One terminal-report step: sets `Finished` once; a repeat with the same
/// payload is accepted without any change, a repeat with a different
/// payload is refused.
pub open spec fn finish_spec(
    pre: Seq<Task>,
    post: Seq<Task>,
    id: u64,
    result: Vec<u8>,
    r: Result<(), StoreError>,
) -> bool {
    if (id as int) >= pre.len() {
        &&& post == pre
        &&& r == Result::<(), StoreError>::Err(StoreError::NotFound)
    } else {
        let t = pre[id as int];
        match t.status {
            TaskStatus::Finished { result: prev } => {
                if prev@ == result@ {
                    &&& post == pre
                    &&& r is Ok
                } else {
                    &&& post == pre
                    &&& r == Result::<(), StoreError>::Err(StoreError::InvalidTransition)
                }
            },
            _ => {
                &&& r is Ok
                &&& post == pre.update(
                    id as int,
                    Task {
                        id: t.id,
                        owner: t.owner,
                        prompt: t.prompt,
                        status: TaskStatus::Finished { result },
                    },
                )
            },
        }
    }
}

/// A task owned by the given user.
pub open spec fn owned_by(t: Task, owner: Seq<char>) -> bool {
    t.owner is Some && t.owner->0@ == owner
}

/// The tasks of one owner, oldest first.
pub open spec fn owned_tasks(s: Seq<Task>, owner: Seq<char>) -> Seq<Task> {
    s.filter(|t: Task| owned_by(t, owner))
}

/// The record of tasks. Backed by an append-only table whose row position
/// doubles as the task identifier.
pub struct TaskStore {
    tasks: Vec<Task>,
}

impl View for TaskStore {
    type V = Seq<Task>;

    closed spec fn view(&self) -> Seq<Task> {
        self.tasks@
    }
}

impl TaskStore {
    /// Identifiers agree with table positions.
    pub open spec fn wf(&self) -> bool {
        wf_tasks(self@)
    }

    /// An empty store.
    pub fn new() -> (r: Self)
        ensures
            r.wf(),
            r@ == Seq::<Task>::empty(),
    {
        let r = TaskStore { tasks: Vec::new() };
        proof {
            assert(r@ =~= Seq::<Task>::empty());
        }
        r
    }

    /// Inserts a new task with status `New` and returns its fresh
    /// identifier, one no existing task carries.
    pub fn create_task(&mut self, owner: Option<String>, prompt: String) -> (id: u64)
        requires
            old(self).wf(),
        ensures
            final(self).wf(),
            id == old(self)@.len() as u64,
            final(self)@ == old(self)@.push(spec_new_task(id, owner, prompt)),
            forall|i: int| 0 <= i < old(self)@.len() ==> (#[trigger] old(self)@[i]).id != id,
    {
        let id = self.tasks.len() as u64;
        self.tasks.push(Task { id, owner, prompt, status: TaskStatus::New });
        id
    }

    /// Atomically selects the oldest task in status `New`, moves it to
    /// `InProgress`, and returns it; returns `None`, changing nothing, when
    /// no `New` task exists. Because the whole step is one conditional
    /// update, no two claimants can receive the same task.
    pub fn claim_next_task(&mut self) -> (r: Option<Task>)
        requires
            old(self).wf(),
        ensures
            final(self).wf(),
            claim_spec(old(self)@, final(self)@, r),
            r is None <==> !has_new_task(old(self)@),
    {
        let n = self.tasks.len();
        let mut i: usize = 0;
        while i < n
            invariant
                old(self).wf(),
                *self == *old(self),
                n == self.tasks@.len(),
                i <= n,
                forall|k: int| 0 <= k < i ==> !((#[trigger] self.tasks@[k]).status is New),
            decreases n - i,
        {
            let found = match &self.tasks[i].status {
                TaskStatus::New => true,
                _ => false,
            };
            if found {
                proof {
                    lemma_first_new_index_at(self.tasks@, i as int);
                }
                let t = &self.tasks[i];
                let updated = Task {
                    id: t.id,
                    owner: clone_owner(&t.owner),
                    prompt: t.prompt.clone(),
                    status: TaskStatus::InProgress { current_step: 0, total_steps: 0 },
                };
                let returned = Task {
                    id: updated.id,
                    owner: clone_owner(&updated.owner),
                    prompt: updated.prompt.clone(),
                    status: TaskStatus::InProgress { current_step: 0, total_steps: 0 },
                };
                self.tasks.set(i, updated);
                return Some(returned);
            }
            i += 1;
        }
        proof {
            assert(!has_new_task(self.tasks@));
        }
        None
    }

    /// Updates a task's step counters in place. Fails with `NotFound` for
    /// an unknown identifier and with `InvalidTransition` once the task is
    /// terminal; in either failure the store is unchanged.
    pub fn report_progress(&mut self, id: u64, current_step: u32, total_steps: u32) -> (r: Result<
        (),
        StoreError,
    >)
        requires
            old(self).wf(),
        ensures
            final(self).wf(),
            progress_spec(old(self)@, final(self)@, id, current_step, total_steps, r),
    {
        if id >= self.tasks.len() as u64 {
            return Err(StoreError::NotFound);
        }
        let idx = id as usize;
        let terminal = match &self.tasks[idx].status {
            TaskStatus::Finished { .. } => true,
            _ => false,
        };
        if terminal {
            return Err(StoreError::InvalidTransition);
        }
        let t = &self.tasks[idx];
        let updated = Task {
            id: t.id,
            owner: clone_owner(&t.owner),
            prompt: t.prompt.clone(),
            status: TaskStatus::InProgress { current_step, total_steps },
        };
        self.tasks.set(idx, updated);
        Ok(())
    }

    /// Records the terminal result. A second call with an identical payload
    /// succeeds without changing anything; a second call with a different
    /// payload fails with `InvalidTransition`.
    pub fn report_finished(&mut self, id: u64, result: Vec<u8>) -> (r: Result<(), StoreError>)
        requires
            old(self).wf(),
        ensures
            final(self).wf(),
            finish_spec(old(self)@, final(self)@, id, result, r),
    {
        if id >= self.tasks.len() as u64 {
            return Err(StoreError::NotFound);
        }
        let idx = id as usize;
        let (already_finished, same_payload) = match &self.tasks[idx].status {
            TaskStatus::Finished { result: prev } => (true, bytes_eq(prev, &result)),
            _ => (false, false),
        };
        if already_finished {
            if same_payload {
                Ok(())
            } else {
                Err(StoreError::InvalidTransition)
            }
        } else {
            let t = &self.tasks[idx];
            let updated = Task {
                id: t.id,
                owner: clone_owner(&t.owner),
                prompt: t.prompt.clone(),
                status: TaskStatus::Finished { result },
            };
            self.tasks.set(idx, updated);
            Ok(())
        }
    }

    /// Point lookup: a copy of the task, or `NotFound`.
    pub fn get_task(&self, id: u64) -> (r: Result<Task, StoreError>)
        ensures
            r is Ok <==> (id as int) < self@.len(),
            r is Ok ==> crate::task::task_matches(r->Ok_0, self@[id as int]),
            r is Err ==> r->Err_0 == StoreError::NotFound,
    {
        if id >= self.tasks.len() as u64 {
            return Err(StoreError::NotFound);
        }
        let idx = id as usize;
        Ok(crate::task::clone_task(&self.tasks[idx]))
    }

    /// Copies of the tasks submitted by the given owner, oldest first.
    pub fn list_tasks_for_owner(&self, owner: &String) -> (r: Vec<Task>)
        ensures
            r@.len() == owned_tasks(self@, owner@).len(),
            forall|i: int|
                0 <= i < r@.len() ==> crate::task::task_matches(
                    #[trigger] r@[i],
                    owned_tasks(self@, owner@)[i],
                ),
    {
        let n = self.tasks.len();
        let mut out: Vec<Task> = Vec::new();
        let mut i: usize = 0;
        proof {
            assert(self@.subrange(0, 0) =~= Seq::<Task>::empty());
            reveal(Seq::filter);
        }
        while i < n
            invariant
                n == self@.len(),
                i <= n,
                out@.len() == owned_tasks(self@.subrange(0, i as int), owner@).len(),
                forall|j: int|
                    0 <= j < out@.len() ==> crate::task::task_matches(
                        #[trigger] out@[j],
                        owned_tasks(self@.subrange(0, i as int), owner@)[j],
                    ),
            decreases n - i,
        {
            let t = &self.tasks[i];
            let matches_owner = match &t.owner {
                Some(o) => *o == *owner,
                None => false,
            };
            let ghost pre_seq = self@.subrange(0, i as int);
            let ghost cur_seq = self@.subrange(0, i as int + 1);
            proof {
                reveal(Seq::filter);
                assert(cur_seq.drop_last() =~= pre_seq);
                assert(cur_seq.last() == self@[i as int]);
                assert(matches_owner == owned_by(self@[i as int], owner@));
                if matches_owner {
                    assert(owned_tasks(cur_seq, owner@) == owned_tasks(pre_seq, owner@).push(
                        self@[i as int],
                    ));
                } else {
                    assert(owned_tasks(cur_seq, owner@) == owned_tasks(pre_seq, owner@));
                }
            }
            if matches_owner {
                out.push(crate::task::clone_task(t));
            }
            i += 1;
        }
        proof {
            assert(self@.subrange(0, n as int) =~= self@);
        }
        out
    }
}

/// Copies an optional owner.
pub fn clone_owner(o: &Option<String>) -> (r: Option<String>)
    ensures
        r == *o,
{
    match o {
        Some(s) => Some(s.clone()),
        None => None,
    }
}

/// How many tasks still wait in `New`.
pub open spec fn count_new(s: Seq<Task>) -> int
    decreases s.len(),
{
    if s.len() == 0 {
        0
    } else {
        count_new(s.drop_last()) + if s.last().status is New {
            1int
        } else {
            0int
        }
    }
}

/// How many claim results carried a task.
pub open spec fn count_claimed(rs: Seq<Option<Task>>) -> int
    decreases rs.len(),
{
    if rs.len() == 0 {
        0
    } else {
        count_claimed(rs.drop_last()) + if rs.last() is Some {
            1int
        } else {
            0int
        }
    }
}

/// A history of claim steps: `states[i]` is the store before the `i`-th
/// claim, which returned `results[i]` and left `states[i + 1]`.
pub open spec fn claim_chain(states: Seq<Seq<Task>>, results: Seq<Option<Task>>) -> bool {
    &&& states.len() == results.len() + 1
    &&& forall|i: int|
        0 <= i < results.len() ==> claim_spec(#[trigger] states[i], states[i + 1], results[i])
}

proof fn lemma_first_new_props(s: Seq<Task>)
    requires
        has_new_task(s),
    ensures
        0 <= first_new_index(s) < s.len(),
        s[first_new_index(s)].status is New,
    decreases s.len(),
{
    if s.len() == 0 {
    } else if s[0].status is New {
    } else {
        let w = choose|i: int| 0 <= i < s.len() && (#[trigger] s[i]).status is New;
        let rest = s.drop_first();
        assert(rest[w - 1] == s[w]);
        assert(has_new_task(rest));
        lemma_first_new_props(rest);
        assert(s[first_new_index(s)] == rest[first_new_index(rest)]);
    }
}

/// A task that has left `New` never returns to it through a claim step.
pub proof fn lemma_claim_preserves_settled(
    pre: Seq<Task>,
    post: Seq<Task>,
    r: Option<Task>,
    i: int,
)
    requires
        claim_spec(pre, post, r),
        0 <= i < pre.len(),
        !(pre[i].status is New),
    ensures
        post.len() == pre.len(),
        !(post[i].status is New),
{
    if has_new_task(pre) {
        lemma_first_new_props(pre);
    }
}

/// Claim steps keep identifiers aligned with positions.
pub proof fn lemma_claim_preserves_wf(pre: Seq<Task>, post: Seq<Task>, r: Option<Task>)
    requires
        claim_spec(pre, post, r),
        wf_tasks(pre),
    ensures
        post.len() == pre.len(),
        wf_tasks(post),
{
    if has_new_task(pre) {
        lemma_first_new_props(pre);
    }
}

proof fn lemma_settled_through_chain(
    states: Seq<Seq<Task>>,
    results: Seq<Option<Task>>,
    from: int,
    to: int,
    idx: int,
)
    requires
        claim_chain(states, results),
        0 <= from <= to <= results.len(),
        0 <= idx < states[from].len(),
        !(states[from][idx].status is New),
    ensures
        states[to].len() == states[from].len(),
        !(states[to][idx].status is New),
    decreases to - from,
{
    if from < to {
        lemma_claim_preserves_settled(states[from], states[from + 1], results[from], idx);
        lemma_settled_through_chain(states, results, from + 1, to, idx);
    }
}

proof fn lemma_wf_through_chain(states: Seq<Seq<Task>>, results: Seq<Option<Task>>, to: int)
    requires
        claim_chain(states, results),
        wf_tasks(states[0]),
        0 <= to <= results.len(),
    ensures
        states[to].len() == states[0].len(),
        wf_tasks(states[to]),
    decreases to,
{
    if to > 0 {
        lemma_wf_through_chain(states, results, to - 1);
        lemma_claim_preserves_wf(states[to - 1], states[to], results[to - 1]);
    }
}

/// Single ownership. Along any history of claim steps over a store whose
/// identifiers are well formed, no two successful claims return the same
/// task: every task is handed to at most one claimant, however many
/// claimants poll and in whatever order their steps interleave.
pub proof fn lemma_claim_single_ownership(states: Seq<Seq<Task>>, results: Seq<Option<Task>>)
    requires
        claim_chain(states, results),
        wf_tasks(states[0]),
        states[0].len() <= u64::MAX,
    ensures
        forall|i: int, j: int|
            0 <= i < j < results.len() && (#[trigger] results[i]) is Some && (
            #[trigger] results[j]) is Some ==> results[i]->0.id != results[j]->0.id,
{
    assert forall|i: int, j: int|
        0 <= i < j < results.len() && (#[trigger] results[i]) is Some && (
        #[trigger] results[j]) is Some implies results[i]->0.id != results[j]->0.id by {
        lemma_wf_through_chain(states, results, i);
        lemma_wf_through_chain(states, results, j);
        assert(has_new_task(states[i]));
        assert(has_new_task(states[j]));
        lemma_first_new_props(states[i]);
        lemma_first_new_props(states[j]);
        let ki = first_new_index(states[i]);
        let kj = first_new_index(states[j]);
        assert(!(states[i + 1][ki].status is New));
        lemma_settled_through_chain(states, results, i + 1, j, ki);
        assert(ki != kj);
        assert(results[i]->0.id == ki as u64);
        assert(results[j]->0.id == kj as u64);
    }
}

proof fn lemma_count_new_update_settles(s: Seq<Task>, k: int, t: Task)
    requires
        0 <= k < s.len(),
        s[k].status is New,
        !(t.status is New),
    ensures
        count_new(s.update(k, t)) == count_new(s) - 1,
    decreases s.len(),
{
    let u = s.update(k, t);
    if k == s.len() - 1 {
        assert(u.drop_last() =~= s.drop_last());
        assert(u.last() == t);
    } else {
        assert(u.drop_last() =~= s.drop_last().update(k, t));
        assert(u.last() == s.last());
        lemma_count_new_update_settles(s.drop_last(), k, t);
    }
}

proof fn lemma_count_new_zero(s: Seq<Task>)
    ensures
        count_new(s) >= 0,
        (count_new(s) == 0) <==> !has_new_task(s),
    decreases s.len(),
{
    if s.len() == 0 {
    } else {
        let d = s.drop_last();
        lemma_count_new_zero(d);
        if s.last().status is New {
            assert(has_new_task(s));
        } else {
            if has_new_task(s) {
                let w = choose|i: int| 0 <= i < s.len() && (#[trigger] s[i]).status is New;
                assert(w < s.len() - 1);
                assert(d[w] == s[w]);
                assert(has_new_task(d));
            }
            if has_new_task(d) {
                let w = choose|i: int| 0 <= i < d.len() && (#[trigger] d[i]).status is New;
                assert(s[w] == d[w]);
                assert(has_new_task(s));
            }
        }
    }
}

/// One claim step consumes exactly one waiting task, and comes back empty
/// exactly when none waits: a claim on a store with no `New` task returns
/// `None` at once, never blocking and never inventing work.
pub proof fn lemma_claim_count(pre: Seq<Task>, post: Seq<Task>, r: Option<Task>)
    requires
        claim_spec(pre, post, r),
    ensures
        r is Some ==> count_new(post) == count_new(pre) - 1,
        r is None <==> count_new(pre) == 0,
        r is None ==> post == pre,
{
    lemma_count_new_zero(pre);
    if has_new_task(pre) {
        lemma_first_new_props(pre);
        lemma_count_new_update_settles(pre, first_new_index(pre), claimed_task(
            pre[first_new_index(pre)],
        ));
    }
}

proof fn lemma_claims_drain_to(states: Seq<Seq<Task>>, results: Seq<Option<Task>>, to: int)
    requires
        claim_chain(states, results),
        0 <= to <= results.len(),
    ensures
        count_new(states[to]) == count_new(states[0]) - count_claimed(results.subrange(0, to)),
    decreases to,
{
    if to == 0 {
        assert(results.subrange(0, 0) =~= Seq::<Option<Task>>::empty());
    } else {
        lemma_claims_drain_to(states, results, to - 1);
        lemma_claim_count(states[to - 1], states[to], results[to - 1]);
        let sub = results.subrange(0, to);
        assert(sub.drop_last() =~= results.subrange(0, to - 1));
        assert(sub.last() == results[to - 1]);
        if results[to - 1] is None {
            assert(count_new(states[to]) == count_new(states[to - 1]));
        }
    }
}

/// Conservation of work: over any history of claim steps, the number of
/// tasks handed out equals the number of tasks that left `New`. With `n`
/// tasks waiting initially, claims succeed exactly `n` times before they
/// start returning `None`.
pub proof fn lemma_claims_drain(states: Seq<Seq<Task>>, results: Seq<Option<Task>>)
    requires
        claim_chain(states, results),
    ensures
        count_new(states[results.len() as int]) == count_new(states[0]) - count_claimed(results),
{
    lemma_claims_drain_to(states, results, results.len() as int);
    assert(results.subrange(0, results.len() as int) =~= results);
}

/// The identifiers of the tasks a history of claims handed out.
pub open spec fn claimed_id_set(results: Seq<Option<Task>>) -> Set<u64> {
    Set::new(
        |id: u64|
            exists|j: int|
                0 <= j < results.len() && (#[trigger] results[j]) is Some && results[j]->0.id
                    == id,
    )
}

/// The identifiers of the tasks waiting in `New`.
pub open spec fn new_id_set(s: Seq<Task>) -> Set<u64> {
    Set::new(
        |id: u64|
            exists|i: int|
                0 <= i < s.len() && (#[trigger] s[i]).status is New && s[i].id == id,
    )
}

proof fn lemma_chain_len(states: Seq<Seq<Task>>, results: Seq<Option<Task>>, to: int)
    requires
        claim_chain(states, results),
        0 <= to <= results.len(),
    ensures
        states[to].len() == states[0].len(),
    decreases to,
{
    if to > 0 {
        lemma_chain_len(states, results, to - 1);
        assert(claim_spec(states[to - 1], states[to], results[to - 1]));
        if has_new_task(states[to - 1]) {
            lemma_first_new_props(states[to - 1]);
            assert(states[to] == states[to - 1].update(
                first_new_index(states[to - 1]),
                claimed_task(states[to - 1][first_new_index(states[to - 1])]),
            ));
        }
    }
}

/// While a task stays in `New`, claim steps leave its entry untouched.
proof fn lemma_new_entry_unchanged(
    states: Seq<Seq<Task>>,
    results: Seq<Option<Task>>,
    from: int,
    to: int,
    i: int,
)
    requires
        claim_chain(states, results),
        0 <= from <= to <= results.len(),
        0 <= i < states[to].len(),
        states[to][i].status is New,
    ensures
        0 <= i < states[from].len(),
        states[from][i] == states[to][i],
    decreases to - from,
{
    if from < to {
        let pre = states[to - 1];
        let post = states[to];
        assert(claim_spec(pre, post, results[to - 1]));
        if has_new_task(pre) {
            lemma_first_new_props(pre);
            let k = first_new_index(pre);
            assert(k != i);
            assert(post[i] == pre[i]);
        } else {
            assert(post == pre);
        }
        lemma_new_entry_unchanged(states, results, from, to - 1, i);
    }
}

/// A task that waits in `New` at some point of the history and no longer
/// waits at its end was handed out by one of the claims in between.
proof fn lemma_new_task_is_claimed(
    states: Seq<Seq<Task>>,
    results: Seq<Option<Task>>,
    from: int,
    i: int,
)
    requires
        claim_chain(states, results),
        0 <= from <= results.len(),
        0 <= i < states[from].len(),
        states[from][i].status is New,
        states[results.len() as int].len() == states[from].len(),
        !(states[results.len() as int][i].status is New),
    ensures
        exists|j: int|
            from <= j < results.len() && (#[trigger] results[j]) is Some && results[j]->0.id
                == states[from][i].id,
    decreases results.len() - from,
{
    assert(from < results.len());
    let pre = states[from];
    let post = states[from + 1];
    assert(claim_spec(pre, post, results[from]));
    if has_new_task(pre) {
        lemma_first_new_props(pre);
        let k = first_new_index(pre);
        if k == i {
            assert(results[from] is Some && results[from]->0.id == pre[i].id);
        } else {
            assert(post[i] == pre[i]);
            lemma_new_task_is_claimed(states, results, from + 1, i);
            let j = choose|j: int|
                from + 1 <= j < results.len() && (#[trigger] results[j]) is Some && results[j]->0.id
                    == states[from + 1][i].id;
            assert(results[j] is Some && results[j]->0.id == pre[i].id);
        }
    } else {
        assert(post == pre);
        lemma_new_task_is_claimed(states, results, from + 1, i);
        let j = choose|j: int|
            from + 1 <= j < results.len() && (#[trigger] results[j]) is Some && results[j]->0.id
                == states[from + 1][i].id;
        assert(results[j] is Some && results[j]->0.id == pre[i].id);
    }
}

/// Exactly the waiting tasks are handed out. Over any history of claim
/// steps that ends with no task left in `New` — for instance, more
/// claimants than tasks — the identifiers the claims returned are exactly
/// the identifiers that stood in `New` at the start; together with the
/// single-ownership lemma, each of them is returned exactly once.
pub proof fn lemma_claims_capture_new_ids(states: Seq<Seq<Task>>, results: Seq<Option<Task>>)
    requires
        claim_chain(states, results),
        !has_new_task(states[results.len() as int]),
    ensures
        claimed_id_set(results) == new_id_set(states[0]),
{
    let last = results.len() as int;
    assert forall|id: u64| claimed_id_set(results).contains(id) implies new_id_set(
        states[0],
    ).contains(id) by {
        let j = choose|j: int|
            0 <= j < results.len() && (#[trigger] results[j]) is Some && results[j]->0.id == id;
        assert(claim_spec(states[j], states[j + 1], results[j]));
        assert(has_new_task(states[j]));
        lemma_first_new_props(states[j]);
        let k = first_new_index(states[j]);
        lemma_new_entry_unchanged(states, results, 0, j, k);
        assert(0 <= k < states[0].len() && states[0][k].status is New && states[0][k].id == id);
    }
    assert forall|id: u64| new_id_set(states[0]).contains(id) implies claimed_id_set(
        results,
    ).contains(id) by {
        let i = choose|i: int|
            0 <= i < states[0].len() && (#[trigger] states[0][i]).status is New && states[0][i].id
                == id;
        lemma_chain_len(states, results, last);
        assert(!(states[last][i].status is New));
        lemma_new_task_is_claimed(states, results, 0, i);
        let j = choose|j: int|
            0 <= j < results.len() && (#[trigger] results[j]) is Some && results[j]->0.id
                == states[0][i].id;
        assert(results[j] is Some && results[j]->0.id == id);
    }
    assert(claimed_id_set(results) =~= new_id_set(states[0]));
}

/// Idempotent finish. After a terminal report succeeds, repeating it with
/// the same payload succeeds and observes no state change, while a repeat
/// with a different payload is refused as an invalid transition, leaving
/// the store unchanged either way.
pub proof fn lemma_finish_idempotent(
    s0: Seq<Task>,
    s1: Seq<Task>,
    s2: Seq<Task>,
    id: u64,
    first: Vec<u8>,
    second: Vec<u8>,
    r2: Result<(), StoreError>,
)
    requires
        finish_spec(s0, s1, id, first, Result::<(), StoreError>::Ok(())),
        finish_spec(s1, s2, id, second, r2),
    ensures
        s2 == s1,
        first@ == second@ ==> r2 is Ok,
        first@ != second@ ==> r2 == Result::<(), StoreError>::Err(StoreError::InvalidTransition),
{
    assert(s1[id as int].status is Finished);
}

/// No update after the terminal state: once a task is finished, a progress
/// report against it is refused and the store is unchanged.
pub proof fn lemma_no_progress_after_terminal(
    pre: Seq<Task>,
    post: Seq<Task>,
    id: u64,
    current_step: u32,
    total_steps: u32,
    r: Result<(), StoreError>,
)
    requires
        progress_spec(pre, post, id, current_step, total_steps, r),
        0 <= id as int && (id as int) < pre.len(),
        pre[id as int].status.is_terminal(),
    ensures
        post == pre,
        r == Result::<(), StoreError>::Err(StoreError::InvalidTransition),
{
}

/// Round trip: creating a task and looking it up returns a record in
/// status `New` whose prompt and owner are exactly those submitted.
pub proof fn lemma_create_then_get(pre: Seq<Task>, owner: Option<String>, prompt: String)
    requires
        pre.len() <= u64::MAX,
    ensures
        ({
            let id = pre.len() as u64;
            let post = pre.push(spec_new_task(id, owner, prompt));
            &&& 0 <= id as int && (id as int) < post.len()
            &&& post[id as int].status is New
            &&& post[id as int].prompt == prompt
            &&& post[id as int].owner == owner
            &&& post[id as int].id == id
        }),
{
}

/// When every position before `i` has left `New` and position `i` holds a
/// `New` task, the claim step picks exactly position `i`.
proof fn lemma_first_new_index_at(s: Seq<Task>, i: int)
    requires
        0 <= i < s.len(),
        s[i].status is New,
        forall|k: int| 0 <= k < i ==> !((#[trigger] s[k]).status is New),
    ensures
        first_new_index(s) == i,
        has_new_task(s),
    decreases i,
{
    if i == 0 {
    } else {
        assert(!(s[0].status is New));
        let rest = s.drop_first();
        assert(rest[i - 1] == s[i]);
        assert forall|k: int| 0 <= k < i - 1 implies !((#[trigger] rest[k]).status is New) by {
            assert(rest[k] == s[k + 1]);
        }
        lemma_first_new_index_at(rest, i - 1);
    }
}

} // verus!
