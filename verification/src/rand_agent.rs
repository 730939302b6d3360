//! The agent pool dispatcher core.
//!
//! [`RandAgent`] is the bookkeeping state of the dispatcher: an ordered pool
//! of entries, each an agent identity with a consecutive-failure counter and
//! a per-entry ceiling.  One dispatch round is
//! [`RandAgent::get_random_valid_agent_index`] (pick a valid entry uniformly
//! at random), then the caller's network call outside any lock, then
//! [`RandAgent::record_outcome`] (update the selected entry's counter and
//! learn whether the entry just crossed from valid to invalid, which is the
//! moment an invalidation callback is owed).

use vstd::prelude::*;

use crate::AgentInfo;
use crate::error::PromptError;

verus! {

/// One pool entry: an agent identity plus its health counters.
#[derive(Debug)]
pub struct AgentState {
    pub id: i32,
    pub info: AgentInfo,
}

impl AgentState {
    /// The duplicated id agrees with the snapshot and the counter respects
    /// its ceiling.
    pub open spec fn wf(&self) -> bool {
        &&& self.id == self.info.id
        &&& self.info.wf()
    }

    pub open spec fn spec_is_valid(&self) -> bool {
        self.info.spec_is_valid()
    }

    /// A failure recorded now would push this entry's counter exactly to its
    /// ceiling: the valid-to-invalid transition.
    pub open spec fn spec_invalidates_on_failure(&self) -> bool {
        self.spec_is_valid() && self.info.failure_count + 1 == self.info.max_failures
    }

    pub fn new(id: i32, provider: String, model: String, max_failures: u32) -> (r: Self)
        ensures
            r.wf(),
            r.id == id,
            r.info.id == id,
            r.info.provider == provider,
            r.info.model == model,
            r.info.failure_count == 0,
            r.info.max_failures == max_failures,
    {
        AgentState {
            id,
            info: AgentInfo { id, provider, model, failure_count: 0, max_failures },
        }
    }

    pub fn is_valid(&self) -> (r: bool)
        ensures
            r == self.spec_is_valid(),
    {
        self.info.is_valid()
    }

    /// Record a failed call: the counter rises by one but never passes the
    /// ceiling, so an entry that is already invalid is left unchanged.
    pub fn record_failure(&mut self)
        requires
            old(self).wf(),
        ensures
            final(self).wf(),
            final(self).id == old(self).id,
            final(self).info.id == old(self).info.id,
            final(self).info.provider == old(self).info.provider,
            final(self).info.model == old(self).info.model,
            final(self).info.max_failures == old(self).info.max_failures,
            final(self).info.failure_count == if old(self).spec_is_valid() {
                old(self).info.failure_count + 1
            } else {
                old(self).info.failure_count as int
            },
    {
        if self.info.failure_count < self.info.max_failures {
            self.info.failure_count = self.info.failure_count + 1;
        }
    }

    /// Record a successful call: the counter drops to zero whatever it was.
    pub fn record_success(&mut self)
        ensures
            final(self).id == old(self).id,
            final(self).info.id == old(self).info.id,
            final(self).info.provider == old(self).info.provider,
            final(self).info.model == old(self).info.model,
            final(self).info.max_failures == old(self).info.max_failures,
            final(self).info.failure_count == 0,
            old(self).wf() ==> final(self).wf(),
    {
        self.info.failure_count = 0;
    }
}

impl Clone for AgentState {
    fn clone(&self) -> (r: Self)
        ensures
            r == *self,
    {
        AgentState { id: self.id, info: self.info.clone() }
    }
}

/// Number of valid entries among the first `n` of `s`.
pub open spec fn count_valid(s: Seq<AgentState>, n: int) -> int
    decreases n,
{
    if n <= 0 {
        0
    } else {
        count_valid(s, n - 1) + if s[n - 1].spec_is_valid() {
            1int
        } else {
            0int
        }
    }
}

/// The valid count over a prefix is zero exactly when no entry of the prefix
/// is valid.
pub proof fn lemma_count_valid_zero(s: Seq<AgentState>, n: int)
    requires
        0 <= n <= s.len(),
    ensures
        count_valid(s, n) == 0 <==> (forall|i: int| 0 <= i < n ==> !s[i].spec_is_valid()),
        0 <= count_valid(s, n) <= n,
    decreases n,
{
    if n > 0 {
        lemma_count_valid_zero(s, n - 1);
    }
}

/// The health-aware random dispatcher state: an ordered pool of entries.
///
/// The pool only grows; entries are retired by their counters, never removed,
/// so an index handed out by selection keeps denoting the same entry.
pub struct RandAgent {
    agents: Vec<AgentState>,
}

impl View for RandAgent {
    type V = Seq<AgentState>;

    closed spec fn view(&self) -> Seq<AgentState> {
        self.agents@
    }
}

impl RandAgent {
    /// Every entry respects its counter ceiling.
    pub open spec fn wf(&self) -> bool {
        forall|i: int| 0 <= i < self@.len() ==> (#[trigger] self@[i]).wf()
    }

    /// Some entry may still be selected.
    pub open spec fn has_valid(&self) -> bool {
        exists|i: int| 0 <= i < self@.len() && (#[trigger] self@[i]).spec_is_valid()
    }

    /// An empty dispatcher with the default ceiling of 3 for later entries.
    pub fn new(agents: Vec<(i32, String, String)>) -> (r: Self)
        ensures
            r.wf(),
            r@.len() == agents@.len(),
            forall|i: int| 0 <= i < agents@.len() ==> {
                &&& (#[trigger] r@[i]).id == agents@[i].0
                &&& r@[i].info.id == agents@[i].0
                &&& r@[i].info.provider@ == agents@[i].1@
                &&& r@[i].info.model@ == agents@[i].2@
                &&& r@[i].info.failure_count == 0
                &&& r@[i].info.max_failures == 3
            },
    {
        Self::with_max_failures(agents, 3)
    }

    /// A dispatcher over the given identities, all with the same ceiling.
    pub fn with_max_failures(agents: Vec<(i32, String, String)>, max_failures: u32) -> (r: Self)
        ensures
            r.wf(),
            r@.len() == agents@.len(),
            forall|i: int| 0 <= i < agents@.len() ==> {
                &&& (#[trigger] r@[i]).id == agents@[i].0
                &&& r@[i].info.id == agents@[i].0
                &&& r@[i].info.provider@ == agents@[i].1@
                &&& r@[i].info.model@ == agents@[i].2@
                &&& r@[i].info.failure_count == 0
                &&& r@[i].info.max_failures == max_failures
            },
    {
        let mut states: Vec<AgentState> = Vec::new();
        let n = agents.len();
        for k in 0..n
            invariant
                n == agents@.len(),
                states@.len() == k,
                forall|i: int| 0 <= i < k ==> {
                    &&& (#[trigger] states@[i]).wf()
                    &&& states@[i].id == agents@[i].0
                    &&& states@[i].info.id == agents@[i].0
                    &&& states@[i].info.provider@ == agents@[i].1@
                    &&& states@[i].info.model@ == agents@[i].2@
                    &&& states@[i].info.failure_count == 0
                    &&& states@[i].info.max_failures == max_failures
                },
        {
            let entry = &agents[k];
            states.push(AgentState::new(entry.0, entry.1.clone(), entry.2.clone(), max_failures));
        }
        RandAgent { agents: states }
    }

    /// Append one entry with the default ceiling of 3.
    pub fn add_agent(&mut self, id: i32, provider: String, model: String)
        ensures
            final(self)@.len() == old(self)@.len() + 1,
            forall|i: int| 0 <= i < old(self)@.len() ==> final(self)@[i] == old(self)@[i],
            final(self)@.last().wf(),
            final(self)@.last().id == id,
            final(self)@.last().info.id == id,
            final(self)@.last().info.provider == provider,
            final(self)@.last().info.model == model,
            final(self)@.last().info.failure_count == 0,
            final(self)@.last().info.max_failures == 3,
            old(self).wf() ==> final(self).wf(),
    {
        self.add_agent_with_max_failures(id, provider, model, 3)
    }

    /// Append one entry with its own ceiling.
    pub fn add_agent_with_max_failures(
        &mut self,
        id: i32,
        provider: String,
        model: String,
        max_failures: u32,
    )
        ensures
            final(self)@.len() == old(self)@.len() + 1,
            forall|i: int| 0 <= i < old(self)@.len() ==> final(self)@[i] == old(self)@[i],
            final(self)@.last().wf(),
            final(self)@.last().id == id,
            final(self)@.last().info.id == id,
            final(self)@.last().info.provider == provider,
            final(self)@.last().info.model == model,
            final(self)@.last().info.failure_count == 0,
            final(self)@.last().info.max_failures == max_failures,
            old(self).wf() ==> final(self).wf(),
    {
        self.agents.push(AgentState::new(id, provider, model, max_failures));
    }

    /// How many entries are currently valid.
    pub fn len(&self) -> (r: usize)
        ensures
            r == count_valid(self@, self@.len() as int),
    {
        let n = self.agents.len();
        let mut c: usize = 0;
        for k in 0..n
            invariant
                n == self@.len(),
                c == count_valid(self@, k as int),
                c <= k,
        {
            if self.agents[k].is_valid() {
                c = c + 1;
            }
        }
        c
    }

    /// How many entries the pool holds, valid or not.
    pub fn total_len(&self) -> (r: usize)
        ensures
            r == self@.len(),
    {
        self.agents.len()
    }

    /// Whether no entry is currently valid.
    pub fn is_empty(&self) -> (r: bool)
        ensures
            r <==> !self.has_valid(),
    {
        let r = self.len() == 0;
        proof {
            lemma_count_valid_zero(self@, self@.len() as int);
        }
        r
    }

    /// The index of one currently-valid entry, chosen uniformly at random
    /// among the valid ones, or `None` when no entry is valid.  Which valid
    /// entry comes back is up to the generator; only membership is promised.
    pub fn get_random_valid_agent_index(&self) -> (r: Option<usize>)
        ensures
            r is None <==> !self.has_valid(),
            r matches Some(i) ==> i < self@.len() && self@[i as int].spec_is_valid(),
    {
        let n = self.agents.len();
        let mut valid_indices: Vec<usize> = Vec::new();
        for k in 0..n
            invariant
                n == self@.len(),
                forall|j: int| 0 <= j < valid_indices@.len() ==> {
                    &&& (#[trigger] valid_indices@[j]) < k
                    &&& self@[valid_indices@[j] as int].spec_is_valid()
                },
                valid_indices@.len() == 0 ==> forall|i: int|
                    0 <= i < k ==> !(#[trigger] self@[i]).spec_is_valid(),
        {
            if self.agents[k].is_valid() {
                valid_indices.push(k);
            }
        }
        if valid_indices.len() == 0 {
            return None;
        }
        let pick = random_below(valid_indices.len());
        Some(valid_indices[pick])
    }

    /// The selection step of one dispatch round: the index of a uniformly
    /// random valid entry, or, when the pool is empty or wholly invalid,
    /// the depth-shaped error the dispatcher surfaces for caller
    /// uniformity.
    pub fn select_for_prompt(&self) -> (r: Result<usize, PromptError>)
        ensures
            r is Ok <==> self.has_valid(),
            r matches Ok(i) ==> i < self@.len() && self@[i as int].spec_is_valid(),
            r matches Err(e) ==> (e matches PromptError::MaxDepth { depth, history, prompt }
                && depth == 0 && history@ == Seq::<String>::empty() && prompt@
                == "no valid agent"@),
    {
        match self.get_random_valid_agent_index() {
            Some(index) => Ok(index),
            None => Err(crate::error::no_valid_agents_error()),
        }
    }

    /// One currently-valid entry, chosen at random, copied out of the pool;
    /// the counters are left untouched.
    pub fn get_random_valid_agent_state(&self) -> (r: Option<AgentState>)
        ensures
            r is None <==> !self.has_valid(),
            r matches Some(st) ==> exists|i: int|
                0 <= i < self@.len() && (#[trigger] self@[i]).spec_is_valid() && st == self@[i],
    {
        match self.get_random_valid_agent_index() {
            Some(index) => Some(self.agents[index].clone()),
            None => None,
        }
    }

    /// Record the outcome of a call served by the entry at `index`: a success
    /// clears the counter, a failure raises it without passing the ceiling.
    /// Returns whether this very update moved the entry from valid to
    /// invalid, the one moment an invalidation callback is owed.
    pub fn record_outcome(&mut self, index: usize, success: bool) -> (fired: bool)
        requires
            old(self).wf(),
            index < old(self)@.len(),
        ensures
            final(self).wf(),
            final(self)@.len() == old(self)@.len(),
            forall|i: int| 0 <= i < old(self)@.len() && i != index ==> final(self)@[i] == old(
                self,
            )@[i],
            final(self)@[index as int].id == old(self)@[index as int].id,
            final(self)@[index as int].info.id == old(self)@[index as int].info.id,
            final(self)@[index as int].info.provider == old(self)@[index as int].info.provider,
            final(self)@[index as int].info.model == old(self)@[index as int].info.model,
            final(self)@[index as int].info.max_failures == old(
                self,
            )@[index as int].info.max_failures,
            success ==> final(self)@[index as int].info.failure_count == 0,
            !success ==> final(self)@[index as int].info.failure_count == if old(
                self,
            )@[index as int].spec_is_valid() {
                old(self)@[index as int].info.failure_count + 1
            } else {
                old(self)@[index as int].info.failure_count as int
            },
            fired == (!success && old(self)@[index as int].spec_invalidates_on_failure()),
            spec_outcome_applied(old(self)@, final(self)@, index as int, success),
    {
        let was_valid = self.agents[index].is_valid();
        let entry = &mut self.agents[index];
        if success {
            entry.record_success();
            false
        } else {
            entry.record_failure();
            was_valid && !entry.is_valid()
        }
    }

    /// A copy of every entry's snapshot, in pool order.
    pub fn get_agents_info(&self) -> (r: Vec<AgentInfo>)
        ensures
            r@.len() == self@.len(),
            forall|i: int| 0 <= i < self@.len() ==> (#[trigger] r@[i]) == self@[i].info,
    {
        let n = self.agents.len();
        let mut infos: Vec<AgentInfo> = Vec::new();
        for k in 0..n
            invariant
                n == self@.len(),
                infos@.len() == k,
                forall|i: int| 0 <= i < k ==> (#[trigger] infos@[i]) == self@[i].info,
        {
            infos.push(self.agents[k].info.clone());
        }
        infos
    }

    /// `(index, failure_count, max_failures)` for every entry, in pool order.
    pub fn failure_stats(&self) -> (r: Vec<(usize, u32, u32)>)
        ensures
            r@.len() == self@.len(),
            forall|i: int| 0 <= i < self@.len() ==> (#[trigger] r@[i]) == (
                i as usize,
                self@[i].info.failure_count,
                self@[i].info.max_failures,
            ),
    {
        let n = self.agents.len();
        let mut stats: Vec<(usize, u32, u32)> = Vec::new();
        for k in 0..n
            invariant
                n == self@.len(),
                stats@.len() == k,
                forall|i: int| 0 <= i < k ==> (#[trigger] stats@[i]) == (
                    i as usize,
                    self@[i].info.failure_count,
                    self@[i].info.max_failures,
                ),
        {
            let entry = &self.agents[k];
            stats.push((k, entry.info.failure_count, entry.info.max_failures));
        }
        stats
    }

    /// Clear every entry's counter; identities and ceilings are untouched.
    pub fn reset_failures(&mut self)
        ensures
            final(self)@.len() == old(self)@.len(),
            forall|i: int| 0 <= i < old(self)@.len() ==> {
                &&& (#[trigger] final(self)@[i]).id == old(self)@[i].id
                &&& final(self)@[i].info.id == old(self)@[i].info.id
                &&& final(self)@[i].info.provider == old(self)@[i].info.provider
                &&& final(self)@[i].info.model == old(self)@[i].info.model
                &&& final(self)@[i].info.max_failures == old(self)@[i].info.max_failures
                &&& final(self)@[i].info.failure_count == 0
            },
            old(self).wf() ==> final(self).wf(),
    {
        let n = self.agents.len();
        for k in 0..n
            invariant
                n == self@.len(),
                self@.len() == old(self)@.len(),
                forall|i: int| k <= i < old(self)@.len() ==> (#[trigger] self@[i]) == old(
                    self,
                )@[i],
                forall|i: int| 0 <= i < k ==> {
                    &&& (#[trigger] self@[i]).id == old(self)@[i].id
                    &&& self@[i].info.id == old(self)@[i].info.id
                    &&& self@[i].info.provider == old(self)@[i].info.provider
                    &&& self@[i].info.model == old(self)@[i].info.model
                    &&& self@[i].info.max_failures == old(self)@[i].info.max_failures
                    &&& self@[i].info.failure_count == 0
                },
        {
            let entry = &mut self.agents[k];
            entry.record_success();
        }
    }

    /// Whether the entry carries the given provider label and model name.
    pub open spec fn name_matches(st: AgentState, provider: Seq<char>, model: Seq<char>) -> bool {
        st.info.provider@ == provider && st.info.model@ == model
    }

    /// A copy of the earliest-inserted entry with this provider label and
    /// model name, if any.
    pub fn get_agent_by_name(&self, provider_name: &str, model_name: &str) -> (r: Option<
        AgentState,
    >)
        ensures
            match r {
                Option::None => forall|i: int|
                    0 <= i < self@.len() ==> !Self::name_matches(
                        #[trigger] self@[i],
                        provider_name@,
                        model_name@,
                    ),
                Option::Some(st) => exists|i: int|
                    {
                        &&& 0 <= i < self@.len()
                        &&& Self::name_matches(#[trigger] self@[i], provider_name@, model_name@)
                        &&& st == self@[i]
                        &&& forall|j: int|
                            0 <= j < i ==> !Self::name_matches(
                                #[trigger] self@[j],
                                provider_name@,
                                model_name@,
                            )
                    },
            },
    {
        let provider_wanted = provider_name.to_owned();
        let model_wanted = model_name.to_owned();
        let n = self.agents.len();
        for k in 0..n
            invariant
                n == self@.len(),
                provider_wanted@ == provider_name@,
                model_wanted@ == model_name@,
                forall|j: int|
                    0 <= j < k ==> !Self::name_matches(
                        #[trigger] self@[j],
                        provider_name@,
                        model_name@,
                    ),
        {
            let entry = &self.agents[k];
            if entry.info.provider == provider_wanted && entry.info.model == model_wanted {
                return Some(entry.clone());
            }
        }
        None
    }

    /// A copy of the earliest-inserted entry with this id, if any.
    pub fn get_agent_by_id(&self, id: i32) -> (r: Option<AgentState>)
        ensures
            match r {
                Option::None => forall|i: int| 0 <= i < self@.len() ==> (#[trigger] self@[i]).id != id,
                Option::Some(st) => exists|i: int|
                    {
                        &&& 0 <= i < self@.len()
                        &&& (#[trigger] self@[i]).id == id
                        &&& st == self@[i]
                        &&& forall|j: int| 0 <= j < i ==> self@[j].id != id
                    },
            },
    {
        let n = self.agents.len();
        for k in 0..n
            invariant
                n == self@.len(),
                forall|j: int| 0 <= j < k ==> (#[trigger] self@[j]).id != id,
        {
            let entry = &self.agents[k];
            if entry.id == id {
                return Some(entry.clone());
            }
        }
        None
    }
}

/// The effect of one [`RandAgent::record_outcome`] call on the pool: the
/// entry at `index` keeps its identity and has its counter cleared or raised
/// as the outcome dictates, and every other entry is untouched.  This is
/// exactly what that method's postcondition grants.
pub open spec fn spec_outcome_applied(
    pre: Seq<AgentState>,
    post: Seq<AgentState>,
    index: int,
    success: bool,
) -> bool {
    &&& 0 <= index < pre.len()
    &&& post.len() == pre.len()
    &&& forall|i: int| 0 <= i < pre.len() && i != index ==> post[i] == pre[i]
    &&& post[index].id == pre[index].id
    &&& post[index].info.id == pre[index].info.id
    &&& post[index].info.provider == pre[index].info.provider
    &&& post[index].info.model == pre[index].info.model
    &&& post[index].info.max_failures == pre[index].info.max_failures
    &&& if success {
        post[index].info.failure_count == 0
    } else {
        post[index].info.failure_count == if pre[index].spec_is_valid() {
            pre[index].info.failure_count + 1
        } else {
            pre[index].info.failure_count as int
        }
    }
}

/// An invalid entry sits out every dispatch round: selection only yields
/// valid entries, so the recorded outcome lands elsewhere and the invalid
/// entry is bit-for-bit unchanged — it stays invalid until the counters are
/// reset.
pub proof fn lemma_invalid_entry_stays_invalid(
    pre: Seq<AgentState>,
    post: Seq<AgentState>,
    index: int,
    success: bool,
    i: int,
)
    requires
        spec_outcome_applied(pre, post, index, success),
        pre[index].spec_is_valid(),
        0 <= i < pre.len(),
        !pre[i].spec_is_valid(),
    ensures
        i != index,
        post[i] == pre[i],
        !post[i].spec_is_valid(),
{
}

/// The invalidation callback fires at most once per valid-to-invalid
/// transition: an entry that is already invalid can never fire, and the
/// failure that does fire leaves the entry invalid, so a further failure
/// against the same entry cannot fire again before a reset or a success
/// makes it valid once more.
pub proof fn lemma_callback_fires_at_most_once(
    pre: Seq<AgentState>,
    post: Seq<AgentState>,
    index: int,
)
    requires
        spec_outcome_applied(pre, post, index, false),
    ensures
        !pre[index].spec_is_valid() ==> !pre[index].spec_invalidates_on_failure(),
        pre[index].spec_invalidates_on_failure() ==> {
            &&& !post[index].spec_is_valid()
            &&& !post[index].spec_invalidates_on_failure()
        },
{
}

/// Whatever outcome lands on whichever entry, the counter invariant holds
/// of every entry afterwards: a cleared counter is at most its ceiling, a
/// raised one only rose because it was strictly below, and all others are
/// untouched.  Updates are serialized per pool, so any interleaving of
/// recorded outcomes keeps every counter between zero and its ceiling.
pub proof fn lemma_outcome_preserves_invariant(
    pre: Seq<AgentState>,
    post: Seq<AgentState>,
    index: int,
    success: bool,
)
    requires
        spec_outcome_applied(pre, post, index, success),
        forall|i: int| 0 <= i < pre.len() ==> (#[trigger] pre[i]).wf(),
    ensures
        forall|i: int| 0 <= i < post.len() ==> (#[trigger] post[i]).wf(),
{
}

/// After a counter reset, every tuple the statistics report carries a zero
/// failure count.
pub proof fn lemma_reset_then_stats_zero(pool: Seq<AgentState>, stats: Seq<(usize, u32, u32)>)
    requires
        forall|i: int| 0 <= i < pool.len() ==> (#[trigger] pool[i]).info.failure_count == 0,
        stats.len() == pool.len(),
        forall|i: int| 0 <= i < pool.len() ==> (#[trigger] stats[i]) == (
            i as usize,
            pool[i].info.failure_count,
            pool[i].info.max_failures,
        ),
    ensures
        forall|i: int| 0 <= i < stats.len() ==> (#[trigger] stats[i]).1 == 0,
{
}

/// A pool freshly built from an identity list: one entry per listed
/// `(id, provider, model)` triple, in order, with cleared counters and the
/// given ceiling.
pub open spec fn spec_fresh_pool(
    pool: Seq<AgentState>,
    agents: Seq<(i32, String, String)>,
    max_failures: u32,
) -> bool {
    &&& pool.len() == agents.len()
    &&& forall|i: int| 0 <= i < agents.len() ==> {
        &&& (#[trigger] pool[i]).id == agents[i].0
        &&& pool[i].info.id == agents[i].0
        &&& pool[i].info.provider@ == agents[i].1@
        &&& pool[i].info.model@ == agents[i].2@
        &&& pool[i].info.failure_count == 0
        &&& pool[i].info.max_failures == max_failures
    }
}

/// Building a pool from the same identity list twice gives pools of equal
/// total length that carry the same ids position by position, and therefore
/// the same id multiset.
pub proof fn lemma_build_deterministic(
    p1: Seq<AgentState>,
    p2: Seq<AgentState>,
    agents: Seq<(i32, String, String)>,
    max_failures: u32,
)
    requires
        spec_fresh_pool(p1, agents, max_failures),
        spec_fresh_pool(p2, agents, max_failures),
    ensures
        p1.len() == p2.len(),
        forall|i: int| 0 <= i < p1.len() ==> p1[i].id == p2[i].id,
        p1.map_values(|st: AgentState| st.id).to_multiset() == p2.map_values(
            |st: AgentState| st.id,
        ).to_multiset(),
{
    assert(p1.map_values(|st: AgentState| st.id) =~= p2.map_values(|st: AgentState| st.id));
}

/// Builds a [`RandAgent`] from agent identities added one at a time.
pub struct RandAgentBuilder {
    pub(crate) agents: Vec<(i32, String, String)>,
    max_failures: u32,
}

impl RandAgentBuilder {
    /// The identity triples added so far.
    pub closed spec fn spec_agents(&self) -> Seq<(i32, String, String)> {
        self.agents@
    }

    /// The failure ceiling the built pool will use.
    pub closed spec fn spec_max_failures(&self) -> u32 {
        self.max_failures
    }

    /// An empty builder with the default ceiling of 3.
    pub fn new() -> (r: Self)
        ensures
            r.spec_agents() == Seq::<(i32, String, String)>::empty(),
            r.spec_max_failures() == 3,
    {
        RandAgentBuilder { agents: Vec::new(), max_failures: 3 }
    }

    /// Set how many consecutive failures invalidate an entry.
    pub fn max_failures(self, max_failures: u32) -> (r: Self)
        ensures
            r.spec_agents() == self.spec_agents(),
            r.spec_max_failures() == max_failures,
    {
        RandAgentBuilder { max_failures, ..self }
    }

    /// Register one agent identity.
    pub fn add_agent(self, id: i32, provider_name: String, model_name: String) -> (r: Self)
        ensures
            r.spec_agents() == self.spec_agents().push((id, provider_name, model_name)),
            r.spec_max_failures() == self.spec_max_failures(),
    {
        let mut agents = self.agents;
        agents.push((id, provider_name, model_name));
        RandAgentBuilder { agents, max_failures: self.max_failures }
    }

    /// Register one agent identity given borrowed names.
    pub fn add_builder(self, id: i32, provider_name: &str, model_name: &str) -> (r: Self)
        ensures
            r.spec_agents().len() == self.spec_agents().len() + 1,
            forall|i: int| 0 <= i < self.spec_agents().len() ==> r.spec_agents()[i]
                == self.spec_agents()[i],
            r.spec_agents().last().0 == id,
            r.spec_agents().last().1@ == provider_name@,
            r.spec_agents().last().2@ == model_name@,
            r.spec_max_failures() == self.spec_max_failures(),
    {
        self.add_agent(id, provider_name.to_owned(), model_name.to_owned())
    }

    /// Build the dispatcher over everything registered so far.
    pub fn build(self) -> (r: RandAgent)
        ensures
            r.wf(),
            spec_fresh_pool(r@, self.spec_agents(), self.spec_max_failures()),
    {
        RandAgent::with_max_failures(self.agents, self.max_failures)
    }
}

impl Default for RandAgentBuilder {
    fn default() -> (r: Self)
        ensures
            r.spec_agents() == Seq::<(i32, String, String)>::empty(),
            r.spec_max_failures() == 3,
    {
        Self::new()
    }
}

/// Relies on `rand::RngExt::random_range` over the thread-local generator
/// `rand::rng()`: a uniformly distributed value drawn from `0..n`, which is
/// nonempty because `n` is at least one.
#[verifier::external_body]
fn random_below(n: usize) -> (r: usize)
    requires
        1 <= n,
    ensures
        r < n,
{
    let mut generator = rand::rng();
    rand::RngExt::random_range(&mut generator, 0..n)
}

} // verus!
