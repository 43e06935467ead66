use crate::errors::app_error::{spec_error_message, AppError};
use crate::models::system_metrics::SystemMetrics;
use crate::text::str_eq;
use vstd::prelude::*;
use vstd::string::*;

verus! {

/// The outcome of publishing metrics for several servers.
///
/// `failed_servers` maps a server id to the message of its error; each id occurs
/// there at most once. `total_servers` counts every recorded outcome.
#[derive(Debug, Clone, PartialEq, Eq)]
pub struct MultiServerResult {
    pub successful_servers: Vec<String>,
    pub failed_servers: Vec<(String, String)>,
    pub total_servers: usize,
}

/// The failures as (server id, message) pairs of text.
pub open spec fn failure_entries(r: MultiServerResult) -> Seq<(Seq<char>, Seq<char>)> {
    r.failed_servers@.map_values(|p: (String, String)| (p.0@, p.1@))
}

/// No server id is recorded twice among the failures.
pub open spec fn failure_ids_distinct(f: Seq<(Seq<char>, Seq<char>)>) -> bool {
    forall|i: int, j: int|
        0 <= i < f.len() && 0 <= j < f.len() && i != j ==> (#[trigger] f[i]).0 != (#[trigger] f[j]).0
}

/// Some failure is recorded for this server id.
pub open spec fn has_failure(f: Seq<(Seq<char>, Seq<char>)>, id: Seq<char>) -> bool {
    exists|i: int| 0 <= i < f.len() && (#[trigger] f[i]).0 == id
}

/// The failures after recording `msg` for `id`: a server already failed keeps its
/// place and gets the new message, a new one is added at the end.
pub open spec fn failures_insert(
    f: Seq<(Seq<char>, Seq<char>)>,
    id: Seq<char>,
    msg: Seq<char>,
) -> Seq<(Seq<char>, Seq<char>)> {
    if has_failure(f, id) {
        f.update(choose|i: int| 0 <= i < f.len() && (#[trigger] f[i]).0 == id, (id, msg))
    } else {
        f.push((id, msg))
    }
}

/// The outcome of a publishing run as text: the servers that succeeded in order,
/// the failures as (server id, message) pairs, and how many outcomes were recorded.
pub ghost struct PublishSummary {
    pub successes: Seq<Seq<char>>,
    pub failures: Seq<(Seq<char>, Seq<char>)>,
    pub total: int,
}

/// What a result records, as text.
pub open spec fn summary_of(r: MultiServerResult) -> PublishSummary {
    PublishSummary {
        successes: r.successful_servers@.map_values(|s: String| s@),
        failures: failure_entries(r),
        total: r.total_servers as int,
    }
}

/// Nothing recorded.
pub open spec fn empty_summary() -> PublishSummary {
    PublishSummary { successes: Seq::empty(), failures: Seq::empty(), total: 0 }
}

/// How an outcome is recorded: nothing for a success, the error's message for a
/// failure.
pub open spec fn outcome_message(outcome: Result<(), AppError>) -> Option<Seq<char>> {
    match outcome {
        Ok(()) => None,
        Err(e) => Some(spec_error_message(e)),
    }
}

/// Recording one outcome for server `id`: `None` is a success, `Some(msg)` a
/// failure with that message.
pub open spec fn summary_step(s: PublishSummary, id: Seq<char>, msg: Option<Seq<char>>) -> PublishSummary {
    match msg {
        None => PublishSummary { successes: s.successes.push(id), failures: s.failures, total: s.total + 1 },
        Some(m) => PublishSummary {
            successes: s.successes,
            failures: failures_insert(s.failures, id, m),
            total: s.total + 1,
        },
    }
}

/// What a run records when the outcomes come in this order, starting from nothing.
pub open spec fn run_summary(outcomes: Seq<(Seq<char>, Option<Seq<char>>)>) -> PublishSummary
    decreases outcomes.len(),
{
    if outcomes.len() == 0 {
        empty_summary()
    } else {
        summary_step(run_summary(outcomes.drop_last()), outcomes.last().0, outcomes.last().1)
    }
}

/// The servers whose outcome was a success, in order.
pub open spec fn ok_ids(outcomes: Seq<(Seq<char>, Option<Seq<char>>)>) -> Seq<Seq<char>>
    decreases outcomes.len(),
{
    if outcomes.len() == 0 {
        Seq::empty()
    } else if outcomes.last().1 is None {
        ok_ids(outcomes.drop_last()).push(outcomes.last().0)
    } else {
        ok_ids(outcomes.drop_last())
    }
}

/// The servers whose outcome was a failure, with the messages, in order.
pub open spec fn failed_entries(outcomes: Seq<(Seq<char>, Option<Seq<char>>)>) -> Seq<(Seq<char>, Seq<char>)>
    decreases outcomes.len(),
{
    if outcomes.len() == 0 {
        Seq::empty()
    } else {
        match outcomes.last().1 {
            Some(m) => failed_entries(outcomes.drop_last()).push((outcomes.last().0, m)),
            None => failed_entries(outcomes.drop_last()),
        }
    }
}

/// Each server occurs once in the run.
pub open spec fn run_ids_distinct(outcomes: Seq<(Seq<char>, Option<Seq<char>>)>) -> bool {
    forall|i: int, j: int|
        0 <= i < outcomes.len() && 0 <= j < outcomes.len() && i != j ==> (#[trigger] outcomes[i]).0
            != (#[trigger] outcomes[j]).0
}

/// A failure recorded in a run names a server of that run.
proof fn lemma_failed_ids_in_run(outcomes: Seq<(Seq<char>, Option<Seq<char>>)>, id: Seq<char>)
    requires
        has_failure(failed_entries(outcomes), id),
    ensures
        exists|i: int| 0 <= i < outcomes.len() && (#[trigger] outcomes[i]).0 == id,
    decreases outcomes.len(),
{
    let q = outcomes.drop_last();
    let f = failed_entries(outcomes);
    let k = choose|k: int| 0 <= k < f.len() && (#[trigger] f[k]).0 == id;
    match outcomes.last().1 {
        Some(m) => {
            if k == f.len() - 1 {
                assert(outcomes[outcomes.len() - 1].0 == id);
            } else {
                assert(failed_entries(q)[k].0 == id);
                lemma_failed_ids_in_run(q, id);
                let i = choose|i: int| 0 <= i < q.len() && (#[trigger] q[i]).0 == id;
                assert(outcomes[i] == q[i]);
            }
        },
        None => {
            assert(failed_entries(q)[k].0 == id);
            lemma_failed_ids_in_run(q, id);
            let i = choose|i: int| 0 <= i < q.len() && (#[trigger] q[i]).0 == id;
            assert(outcomes[i] == q[i]);
        },
    }
}

/// A publishing run over distinct servers records every outcome once: the
/// total is the number of servers, the successes are exactly the servers whose
/// send succeeded, and the failures exactly those whose send failed, each with
/// its message, all in the order the servers came.
pub proof fn law_publishing_run(outcomes: Seq<(Seq<char>, Option<Seq<char>>)>)
    requires
        run_ids_distinct(outcomes),
    ensures
        run_summary(outcomes) == (PublishSummary {
            successes: ok_ids(outcomes),
            failures: failed_entries(outcomes),
            total: outcomes.len() as int,
        }),
    decreases outcomes.len(),
{
    if outcomes.len() > 0 {
        let q = outcomes.drop_last();
        let x = outcomes.last();
        assert(run_ids_distinct(q)) by {
            assert forall|i: int, j: int|
                0 <= i < q.len() && 0 <= j < q.len() && i != j implies (#[trigger] q[i]).0 != (
                #[trigger] q[j]).0 by {
                assert(q[i] == outcomes[i] && q[j] == outcomes[j]);
            }
        }
        law_publishing_run(q);
        match x.1 {
            Some(m) => {
                if has_failure(failed_entries(q), x.0) {
                    lemma_failed_ids_in_run(q, x.0);
                    let i = choose|i: int| 0 <= i < q.len() && (#[trigger] q[i]).0 == x.0;
                    assert(outcomes[i] == q[i]);
                    assert(outcomes[outcomes.len() - 1] == x);
                }
            },
            None => {},
        }
    }
}

impl MultiServerResult {
    /// The bookkeeping holds: failures name distinct servers, and every recorded
    /// success and failure is counted in the total.
    pub open spec fn wf(&self) -> bool {
        &&& failure_ids_distinct(failure_entries(*self))
        &&& self.successful_servers@.len() + self.failed_servers@.len() <= self.total_servers
    }

    /// No outcome recorded yet.
    pub fn new() -> (r: MultiServerResult)
        ensures
            r.successful_servers@.len() == 0,
            r.failed_servers@.len() == 0,
            r.total_servers == 0,
            r.wf(),
            summary_of(r) == empty_summary(),
    {
        let r = MultiServerResult { successful_servers: Vec::new(), failed_servers: Vec::new(), total_servers: 0 };
        assert(summary_of(r).successes =~= Seq::<Seq<char>>::empty());
        assert(summary_of(r).failures =~= Seq::<(Seq<char>, Seq<char>)>::empty());
        r
    }

    /// Records that publishing for `server_id` succeeded.
    pub fn add_success(&mut self, server_id: String)
        requires
            old(self).total_servers < usize::MAX,
        ensures
            final(self).successful_servers@ == old(self).successful_servers@.push(server_id),
            final(self).failed_servers@ == old(self).failed_servers@,
            final(self).total_servers == old(self).total_servers + 1,
            old(self).wf() ==> final(self).wf(),
    {
        self.successful_servers.push(server_id);
        self.total_servers = self.total_servers + 1;
        assert(failure_entries(*self) =~= failure_entries(*old(self)));
    }

    /// Records that publishing for `server_id` failed with `error`; the error's
    /// message replaces any earlier one for that server.
    pub fn add_failure(&mut self, server_id: String, error: AppError)
        requires
            old(self).total_servers < usize::MAX,
            failure_ids_distinct(failure_entries(*old(self))),
        ensures
            final(self).successful_servers@ == old(self).successful_servers@,
            failure_entries(*final(self)) == failures_insert(
                failure_entries(*old(self)),
                server_id@,
                spec_error_message(error),
            ),
            failure_ids_distinct(failure_entries(*final(self))),
            final(self).total_servers == old(self).total_servers + 1,
            old(self).wf() ==> final(self).wf(),
    {
        let msg = error.message();
        let ghost f = failure_entries(*self);
        let n = self.failed_servers.len();
        let i = self.failure_position(server_id.as_str());
        if i < n {
            assert(has_failure(f, server_id@));
            let ghost k = choose|k: int| 0 <= k < f.len() && (#[trigger] f[k]).0 == server_id@;
            assert(k == i);
            self.failed_servers.set(i, (server_id, msg));
        } else {
            assert(!has_failure(f, server_id@));
            self.failed_servers.push((server_id, msg));
        }
        self.total_servers = self.total_servers + 1;
        assert(failure_entries(*self) =~= failures_insert(f, server_id@, spec_error_message(error)));
        assert(failure_ids_distinct(failure_entries(*self))) by {
            let g = failure_entries(*self);
            assert forall|a: int, b: int|
                0 <= a < g.len() && 0 <= b < g.len() && a != b implies (#[trigger] g[a]).0 != (
                #[trigger] g[b]).0 by {
                if a < f.len() && b < f.len() {
                    if a != i && b != i {
                        assert(f[a].0 != f[b].0);
                    }
                }
            }
        }
    }

    /// Records what publishing for `server_id` came to: a success, or a failure
    /// with the error's message.
    pub fn record_outcome(&mut self, server_id: String, outcome: Result<(), AppError>)
        requires
            old(self).total_servers < usize::MAX,
            failure_ids_distinct(failure_entries(*old(self))),
        ensures
            match outcome {
                Ok(()) => final(self).successful_servers@ == old(self).successful_servers@.push(
                    server_id,
                ) && final(self).failed_servers@ == old(self).failed_servers@,
                Err(e) => final(self).successful_servers@ == old(self).successful_servers@
                    && failure_entries(*final(self)) == failures_insert(
                    failure_entries(*old(self)),
                    server_id@,
                    spec_error_message(e),
                ),
            },
            final(self).total_servers == old(self).total_servers + 1,
            failure_ids_distinct(failure_entries(*final(self))),
            old(self).wf() ==> final(self).wf(),
            summary_of(*final(self)) == summary_step(
                summary_of(*old(self)),
                server_id@,
                outcome_message(outcome),
            ),
    {
        let ghost id = server_id@;
        match outcome {
            Ok(()) => self.add_success(server_id),
            Err(e) => self.add_failure(server_id, e),
        }
        assert(summary_of(*self).successes =~= summary_step(
            summary_of(*old(self)),
            id,
            outcome_message(outcome),
        ).successes);
    }

    /// The position of the failure recorded for `server_id`, or the number of
    /// failures when there is none.
    fn failure_position(&self, server_id: &str) -> (i: usize)
        ensures
            i <= self.failed_servers@.len(),
            i < self.failed_servers@.len() ==> failure_entries(*self)[i as int].0 == server_id@,
            forall|k: int| 0 <= k < i ==> (#[trigger] failure_entries(*self)[k]).0 != server_id@,
    {
        let n = self.failed_servers.len();
        let mut i: usize = 0;
        while i < n
            invariant
                n == self.failed_servers@.len(),
                i <= n,
                forall|k: int| 0 <= k < i ==> (#[trigger] failure_entries(*self)[k]).0 != server_id@,
            decreases n - i,
        {
            if str_eq(self.failed_servers[i].0.as_str(), server_id) {
                return i;
            }
            i = i + 1;
        }
        i
    }

    /// No failure was recorded.
    pub fn all_successful(&self) -> (r: bool)
        ensures
            r == (self.failed_servers@.len() == 0),
    {
        self.failed_servers.len() == 0
    }

    /// At least one success was recorded.
    pub fn any_successful(&self) -> (r: bool)
        ensures
            r == (self.successful_servers@.len() > 0),
    {
        self.successful_servers.len() > 0
    }
}

impl Default for MultiServerResult {
    fn default() -> (r: MultiServerResult)
        ensures
            r.successful_servers@.len() == 0,
            r.failed_servers@.len() == 0,
            r.total_servers == 0,
    {
        MultiServerResult::new()
    }
}

/// The readings of one server among the readings collected for all servers:
/// those of the first entry with that id, or, when there is none,
/// `Validation("Servidor <id> no encontrado")`.
pub fn find_server_metrics(all: &Vec<(String, SystemMetrics)>, server_id: &str) -> (r: Result<
    SystemMetrics,
    AppError,
>)
    ensures
        match r {
            Ok(m) => exists|i: int|
                0 <= i < all@.len() && (#[trigger] all@[i]).0@ == server_id@ && all@[i].1 == m
                    && forall|k: int| 0 <= k < i ==> (#[trigger] all@[k]).0@ != server_id@,
            Err(e) => {
                &&& forall|k: int| 0 <= k < all@.len() ==> (#[trigger] all@[k]).0@ != server_id@
                &&& e matches AppError::Validation(msg) && msg@ == "Servidor "@ + server_id@
                    + " no encontrado"@
            },
        },
{
    let n = all.len();
    let mut i: usize = 0;
    while i < n
        invariant
            n == all@.len(),
            i <= n,
            forall|k: int| 0 <= k < i ==> (#[trigger] all@[k]).0@ != server_id@,
        decreases n - i,
    {
        if str_eq(all[i].0.as_str(), server_id) {
            return Ok(all[i].1);
        }
        i = i + 1;
    }
    Err(
        AppError::Validation(
            String::from_str("Servidor ").concat(server_id).concat(" no encontrado"),
        ),
    )
}

/// A recorded failure is there afterwards: its server has an entry, so the
/// outcome is no longer all successful.
pub proof fn law_failure_recorded(f: Seq<(Seq<char>, Seq<char>)>, id: Seq<char>, msg: Seq<char>)
    ensures
        has_failure(failures_insert(f, id, msg), id),
        failures_insert(f, id, msg).len() > 0,
{
    let g = failures_insert(f, id, msg);
    if has_failure(f, id) {
        let k = choose|i: int| 0 <= i < f.len() && (#[trigger] f[i]).0 == id;
        assert(g[k].0 == id);
    } else {
        assert(g[f.len() as int].0 == id);
    }
}

} // verus!
