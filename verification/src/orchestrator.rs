//! Planning and bookkeeping of one run: one independent search per
//! (torrent, indexer) pair over the enabled indexers, outcomes collected by
//! pair index so that completion order cannot matter, and the once-only
//! discipline of lazy client construction. The scheduling itself (tasks,
//! locks, timeouts) is the caller's; what is planned, counted and recorded
//! is proved here.
use vstd::prelude::*;

use crate::client::{SearchResults, TorznabClient};
use crate::error::ClientError;
use crate::search_parameters::{GenericSearchParameters, GenericSearchParametersBuilder};

verus! {

/// One indexer as configured: identity, endpoint, credentials, and whether
/// it is enabled at all.
#[derive(Debug, Clone)]
pub struct IndexerRecord {
    pub name: String,
    pub enabled: Option<bool>,
    pub url: String,
    pub api_key: String,
}

/// An indexer takes part in a run unless it is configured off.
pub open spec fn indexer_enabled(r: IndexerRecord) -> bool {
    r.enabled != Some(false)
}

impl IndexerRecord {
    /// Whether this indexer takes part in a run.
    pub fn is_enabled(&self) -> (r: bool)
        ensures
            r == indexer_enabled(*self),
    {
        match self.enabled {
            Some(b) => b,
            None => true,
        }
    }
}

/// How many of the given indexers are enabled.
pub open spec fn enabled_count(s: Seq<IndexerRecord>) -> nat
    decreases s.len(),
{
    if s.len() == 0 {
        0
    } else {
        enabled_count(s.drop_last()) + (if indexer_enabled(s.last()) {
            1nat
        } else {
            0nat
        })
    }
}

proof fn lemma_enabled_count_take_step(s: Seq<IndexerRecord>, j: int)
    requires
        0 <= j < s.len(),
    ensures
        enabled_count(s.take(j + 1)) == enabled_count(s.take(j)) + (if indexer_enabled(s[j]) {
            1nat
        } else {
            0nat
        }),
{
    assert(s.take(j + 1).drop_last() =~= s.take(j));
    assert(s.take(j + 1).last() == s[j]);
}

/// One unit of work of a run: one torrent searched on one indexer, both
/// given by index.
#[derive(Debug, Clone, Copy, PartialEq, Eq, Structural)]
pub struct SearchTask {
    pub torrent: usize,
    pub indexer: usize,
}

/// Whether one task comes strictly before another in torrent-major order.
pub open spec fn task_lex_before(a: SearchTask, b: SearchTask) -> bool {
    a.torrent < b.torrent || (a.torrent == b.torrent && a.indexer < b.indexer)
}

/// Whether the plan holds a task for the given (torrent, indexer) pair.
pub open spec fn has_task(tasks: Seq<SearchTask>, t: int, j: int) -> bool {
    exists|k: int|
        0 <= k < tasks.len() && (#[trigger] tasks[k]).torrent == t && tasks[k].indexer == j
}

proof fn lemma_has_task_push(tasks: Seq<SearchTask>, nt: SearchTask)
    ensures
        forall|t: int, j: int| has_task(tasks, t, j) ==> #[trigger] has_task(tasks.push(nt), t, j),
        has_task(tasks.push(nt), nt.torrent as int, nt.indexer as int),
{
    assert forall|t: int, j: int| has_task(tasks, t, j) implies #[trigger] has_task(
        tasks.push(nt),
        t,
        j,
    ) by {
        let k = choose|k: int|
            0 <= k < tasks.len() && (#[trigger] tasks[k]).torrent == t && tasks[k].indexer == j;
        assert(tasks.push(nt)[k] == tasks[k]);
    }
    assert(tasks.push(nt)[tasks.len() as int] == nt);
}

/// What became of an indexer at planning time: part of the run, or left out
/// because it is configured off. A skipped indexer is not a failed one.
#[derive(Debug, Clone, Copy, PartialEq, Eq, Structural)]
pub enum IndexerStatus {
    Active,
    Skipped,
}

/// The plan of one run: a disposition per indexer and one task per
/// (torrent, enabled indexer) pair, in torrent-major order.
#[derive(Debug)]
pub struct SearchPlan {
    pub n_torrents: usize,
    pub statuses: Vec<IndexerStatus>,
    pub tasks: Vec<SearchTask>,
}

/// Plan one run: every (torrent, indexer) pair over the enabled indexers
/// becomes exactly one task; an indexer configured off is marked skipped
/// and gets no task at all.
pub fn plan_run(torrent_names: &Vec<String>, indexers: &Vec<IndexerRecord>) -> (p: SearchPlan)
    ensures
        p.n_torrents == torrent_names@.len(),
        p.statuses@.len() == indexers@.len(),
        forall|i: int|
            0 <= i < indexers@.len() ==> ((p.statuses@[i] is Active) <==> indexer_enabled(
                indexers@[i],
            )),
        p.tasks@.len() == torrent_names@.len() * enabled_count(indexers@),
        forall|k: int|
            0 <= k < p.tasks@.len() ==> (#[trigger] p.tasks@[k]).torrent < torrent_names@.len()
                && p.tasks@[k].indexer < indexers@.len() && indexer_enabled(
                indexers@[p.tasks@[k].indexer as int],
            ),
        forall|t: int, j: int|
            0 <= t < torrent_names@.len() && 0 <= j < indexers@.len() && indexer_enabled(
                indexers@[j],
            ) ==> #[trigger] has_task(p.tasks@, t, j),
        forall|k1: int, k2: int|
            0 <= k1 < k2 < p.tasks@.len() ==> task_lex_before(p.tasks@[k1], p.tasks@[k2]),
{
    let mut statuses: Vec<IndexerStatus> = Vec::new();
    let mut i: usize = 0;
    while i < indexers.len()
        invariant
            i <= indexers@.len(),
            statuses@.len() == i,
            forall|q: int|
                0 <= q < i ==> ((statuses@[q] is Active) <==> indexer_enabled(indexers@[q])),
        decreases indexers@.len() - i,
    {
        if indexers[i].is_enabled() {
            statuses.push(IndexerStatus::Active);
        } else {
            statuses.push(IndexerStatus::Skipped);
        }
        i += 1;
    }

    let mut tasks: Vec<SearchTask> = Vec::new();
    let mut t: usize = 0;
    while t < torrent_names.len()
        invariant
            t <= torrent_names@.len(),
            tasks@.len() == t * enabled_count(indexers@),
            forall|k: int|
                0 <= k < tasks@.len() ==> (#[trigger] tasks@[k]).torrent < t && tasks@[k].indexer
                    < indexers@.len() && indexer_enabled(indexers@[tasks@[k].indexer as int]),
            forall|t2: int, j: int|
                0 <= t2 < t && 0 <= j < indexers@.len() && indexer_enabled(indexers@[j])
                    ==> #[trigger] has_task(tasks@, t2, j),
            forall|k1: int, k2: int|
                0 <= k1 < k2 < tasks@.len() ==> task_lex_before(tasks@[k1], tasks@[k2]),
        decreases torrent_names@.len() - t,
    {
        let mut j: usize = 0;
        while j < indexers.len()
            invariant
                j <= indexers@.len(),
                t < torrent_names@.len(),
                tasks@.len() == t * enabled_count(indexers@) + enabled_count(
                    indexers@.take(j as int),
                ),
                forall|k: int|
                    0 <= k < tasks@.len() ==> ((#[trigger] tasks@[k]).torrent < t || (
                    tasks@[k].torrent == t && tasks@[k].indexer < j)) && tasks@[k].indexer
                        < indexers@.len() && indexer_enabled(indexers@[tasks@[k].indexer as int]),
                forall|t2: int, j2: int|
                    (0 <= t2 < t && 0 <= j2 < indexers@.len() && indexer_enabled(indexers@[j2])) || (
                    t2 == t && 0 <= j2 < j && indexer_enabled(indexers@[j2])) ==> #[trigger] has_task(
                        tasks@,
                        t2,
                        j2,
                    ),
                forall|k1: int, k2: int|
                    0 <= k1 < k2 < tasks@.len() ==> task_lex_before(tasks@[k1], tasks@[k2]),
            decreases indexers@.len() - j,
        {
            if indexers[j].is_enabled() {
                let ghost prev = tasks@;
                let nt = SearchTask { torrent: t, indexer: j };
                tasks.push(nt);
                proof {
                    lemma_has_task_push(prev, nt);
                    assert(tasks@ == prev.push(nt));
                }
            }
            proof {
                lemma_enabled_count_take_step(indexers@, j as int);
            }
            j += 1;
        }
        proof {
            assert(indexers@.take(indexers@.len() as int) =~= indexers@);
            assert((t + 1) * enabled_count(indexers@) == t * enabled_count(indexers@)
                + enabled_count(indexers@)) by (nonlinear_arith);
        }
        t += 1;
    }
    SearchPlan { n_torrents: torrent_names.len(), statuses, tasks }
}

/// The minimum viable query of one pair: a free-text search for the
/// torrent's display name, with nothing else set.
pub fn torrent_query(torrent_name: &str) -> (r: GenericSearchParameters)
    ensures
        r.query matches Some(q) && q@ == torrent_name@,
        r.categories@.len() == 0,
        r.attributes@.len() == 0,
        r.extended is None,
        r.offset is None,
        r.limit is None,
{
    GenericSearchParametersBuilder::new().query(torrent_name.to_owned()).build()
}

/// What one task ended as: results (possibly none), or one typed failure.
/// A failure of one task never touches another task's outcome.
#[derive(Debug)]
pub enum TaskOutcome {
    Success(SearchResults),
    Failed(ClientError),
}

/// The collected outcomes of a run, indexed by task so that the order in
/// which tasks finish cannot matter, beside the planning-time disposition
/// of each indexer.
#[derive(Debug)]
pub struct RunReport {
    pub statuses: Vec<IndexerStatus>,
    pub outcomes: Vec<Option<TaskOutcome>>,
}

impl RunReport {
    /// An empty report for a plan: every task's outcome still open.
    pub fn new(plan: &SearchPlan) -> (r: RunReport)
        ensures
            r.statuses@ == plan.statuses@,
            r.outcomes@.len() == plan.tasks@.len(),
            forall|k: int| 0 <= k < r.outcomes@.len() ==> r.outcomes@[k] is None,
    {
        let mut statuses: Vec<IndexerStatus> = Vec::new();
        let mut i: usize = 0;
        while i < plan.statuses.len()
            invariant
                i <= plan.statuses@.len(),
                statuses@ == plan.statuses@.take(i as int),
            decreases plan.statuses@.len() - i,
        {
            statuses.push(plan.statuses[i]);
            proof {
                assert(plan.statuses@.take(i + 1) =~= plan.statuses@.take(i as int).push(
                    plan.statuses@[i as int],
                ));
            }
            i += 1;
        }
        proof {
            assert(plan.statuses@.take(plan.statuses@.len() as int) =~= plan.statuses@);
        }
        let mut outcomes: Vec<Option<TaskOutcome>> = Vec::new();
        let mut k: usize = 0;
        while k < plan.tasks.len()
            invariant
                k <= plan.tasks@.len(),
                outcomes@.len() == k,
                forall|q: int| 0 <= q < k ==> outcomes@[q] is None,
            decreases plan.tasks@.len() - k,
        {
            outcomes.push(None);
            k += 1;
        }
        RunReport { statuses, outcomes }
    }

    /// Record one task's outcome. Only that task's slot changes, so records
    /// commute across distinct tasks and arrival order cannot matter.
    pub fn record(&mut self, task: usize, outcome: TaskOutcome)
        requires
            task < old(self).outcomes@.len(),
            old(self).outcomes@[task as int] is None,
        ensures
            final(self).outcomes@ == old(self).outcomes@.update(task as int, Some(outcome)),
            final(self).statuses == old(self).statuses,
    {
        self.outcomes.set(task, Some(outcome));
    }

    /// Whether every task's outcome has arrived.
    pub fn is_complete(&self) -> (r: bool)
        ensures
            r == (forall|k: int| 0 <= k < self.outcomes@.len() ==> self.outcomes@[k] is Some),
    {
        let mut k: usize = 0;
        while k < self.outcomes.len()
            invariant
                k <= self.outcomes@.len(),
                forall|q: int| 0 <= q < k ==> self.outcomes@[q] is Some,
            decreases self.outcomes@.len() - k,
        {
            if self.outcomes[k].is_none() {
                return false;
            }
            k += 1;
        }
        true
    }
}

/// Recording two distinct tasks' outcomes gives the same report in either
/// order: aggregation is insensitive to completion order.
pub proof fn lemma_record_commutes(
    outcomes: Seq<Option<TaskOutcome>>,
    k1: int,
    o1: TaskOutcome,
    k2: int,
    o2: TaskOutcome,
)
    requires
        0 <= k1 < outcomes.len(),
        0 <= k2 < outcomes.len(),
        k1 != k2,
    ensures
        outcomes.update(k1, Some(o1)).update(k2, Some(o2)) == outcomes.update(k2, Some(o2)).update(
            k1,
            Some(o1),
        ),
{
    assert(outcomes.update(k1, Some(o1)).update(k2, Some(o2)) =~= outcomes.update(
        k2,
        Some(o2),
    ).update(k1, Some(o1)));
}

/// How many recorded outcomes of the given indexer's tasks are successes.
pub open spec fn successes_for_indexer(
    tasks: Seq<SearchTask>,
    outcomes: Seq<Option<TaskOutcome>>,
    indexer: int,
) -> nat
    decreases outcomes.len(),
{
    if outcomes.len() == 0 {
        0
    } else {
        let k = outcomes.len() - 1;
        successes_for_indexer(tasks, outcomes.drop_last(), indexer) + (if k < tasks.len()
            && tasks[k].indexer == indexer && (outcomes[k] matches Some(o) && o is Success) {
            1nat
        } else {
            0nat
        })
    }
}

/// Recording an outcome of one indexer's task, whatever the outcome, leaves
/// every other indexer's success count unchanged: one indexer failing
/// cannot reduce what another contributed.
pub proof fn lemma_record_isolates_indexers(
    tasks: Seq<SearchTask>,
    outcomes: Seq<Option<TaskOutcome>>,
    k: int,
    outcome: TaskOutcome,
    indexer: int,
)
    requires
        0 <= k < outcomes.len(),
        k < tasks.len(),
        tasks[k].indexer != indexer,
    ensures
        successes_for_indexer(tasks, outcomes.update(k, Some(outcome)), indexer)
            == successes_for_indexer(tasks, outcomes, indexer),
    decreases outcomes.len(),
{
    let u = outcomes.update(k, Some(outcome));
    if k == outcomes.len() - 1 {
        assert(u.drop_last() =~= outcomes.drop_last());
    } else {
        assert(u.drop_last() =~= outcomes.drop_last().update(k, Some(outcome)));
        lemma_record_isolates_indexers(tasks, outcomes.drop_last(), k, outcome, indexer);
        assert(u[u.len() - 1] == outcomes[outcomes.len() - 1]);
    }
}

/// One indexer's lazily constructed client: vacant until the first task
/// that needs it constructs one; occupied, and never vacated, after.
#[derive(Debug)]
pub enum ClientSlot {
    Vacant,
    Occupied(TorznabClient),
}

impl ClientSlot {
    /// Whether a client still has to be constructed.
    pub fn needs_init(&self) -> (r: bool)
        ensures
            r == (self is Vacant),
    {
        match self {
            ClientSlot::Vacant => true,
            ClientSlot::Occupied(_) => false,
        }
    }

    /// Install the first-time constructed client. Callable only while the
    /// slot is vacant, so a holder of exclusive access that re-checks
    /// `needs_init` first can never install twice: every install is an
    /// `install_event` of the slot's history.
    pub fn install(&mut self, client: TorznabClient)
        requires
            (*old(self)) is Vacant,
        ensures
            (*final(self)) matches ClientSlot::Occupied(c) && c == client,
            install_event(slot_state(*old(self)), slot_state(*final(self))),
    {
        *self = ClientSlot::Occupied(client);
    }

    /// Borrow the installed client.
    pub fn client(&self) -> (r: Option<&TorznabClient>)
        ensures
            match r {
                Some(c) => self matches ClientSlot::Occupied(cl) && *c == cl,
                None => self is Vacant,
            },
    {
        match self {
            ClientSlot::Vacant => None,
            ClientSlot::Occupied(c) => Some(c),
        }
    }
}

/// The observable state of a client slot at one instant.
/// A history of `ClientSlot` values is abstracted to these states by
/// `slot_state`.
#[derive(Debug, Clone, Copy, PartialEq, Eq, Structural)]
pub enum SlotState {
    Vacant,
    Ready,
}

/// The state a slot value is in.
pub open spec fn slot_state(slot: ClientSlot) -> SlotState {
    match slot {
        ClientSlot::Vacant => SlotState::Vacant,
        ClientSlot::Occupied(_) => SlotState::Ready,
    }
}

/// A step a correct driver can take: reads change nothing, and a client,
/// once installed, stays installed.
pub open spec fn slot_step(pre: SlotState, post: SlotState) -> bool {
    pre is Ready ==> post is Ready
}

/// An installation: the one step that performs capability discovery and
/// constructs the client.
pub open spec fn install_event(pre: SlotState, post: SlotState) -> bool {
    pre is Vacant && post is Ready
}

/// A history of one slot under a correct driver: it starts vacant and every
/// adjacent pair of states is an allowed step.
pub open spec fn valid_slot_trace(t: Seq<SlotState>) -> bool {
    t.len() > 0 && t[0] is Vacant && (forall|i: int|
        0 <= i < t.len() - 1 ==> slot_step(#[trigger] t[i], t[i + 1]))
}

/// How many installations a history holds.
pub open spec fn install_count(t: Seq<SlotState>) -> nat
    decreases t.len(),
{
    if t.len() <= 1 {
        0
    } else {
        install_count(t.drop_last()) + (if install_event(t[t.len() - 2], t[t.len() - 1]) {
            1nat
        } else {
            0nat
        })
    }
}

/// However a run's tasks interleave, a slot driven by allowed steps is
/// installed at most once: at most one capability-discovery request is
/// issued per indexer.
pub proof fn lemma_install_at_most_once(t: Seq<SlotState>)
    requires
        valid_slot_trace(t),
    ensures
        install_count(t) <= 1,
        t.last() is Vacant ==> install_count(t) == 0,
    decreases t.len(),
{
    if t.len() > 1 {
        let p = t.drop_last();
        assert(forall|i: int| 0 <= i < p.len() - 1 ==> slot_step(#[trigger] p[i], p[i + 1]));
        lemma_install_at_most_once(p);
        if install_event(t[t.len() - 2], t[t.len() - 1]) {
            assert(p.last() is Vacant);
        } else {
            assert(slot_step(t[t.len() - 2], t[t.len() - 1]));
            if t.last() is Vacant {
                assert(p.last() is Vacant);
            }
        }
    }
}

} // verus!
