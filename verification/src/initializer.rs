//! The connection-initialization state machine.
//!
//! A freshly opened connection must be configured with its durability
//! pragmas and then brought up to date by the migration registry, each
//! migration inside its own transaction, before any caller may use it.
//! The engine that executes SQL is an external collaborator, so the
//! pipeline is expressed as a machine: `action` says what the engine
//! must do next, `advance` consumes the outcome and moves to the next
//! decision.  The driver loops until the machine is done or failed.
//!
//! The machine guarantees, for every run: scripts are dispatched in
//! strictly increasing (domain, step) order; a script whose step index
//! is below the recorded count read for its domain is never dispatched;
//! the record is told to change only by a transaction that commits; and
//! after any failure the only remaining instruction is to roll back.

use vstd::prelude::*;
use crate::migrations::{record_after, steps_remaining, Migration};

verus! {

/// Where the machine stands in the initialization pipeline.
#[derive(Clone, Copy, PartialEq, Eq, Debug)]
pub enum Phase {
    /// The durability pragmas still have to be applied.
    Configure,
    /// The bookkeeping table still has to be created if absent.
    EnsureTable,
    /// The applied-migration record of the current domain has to be read.
    ReadRecord,
    /// A transaction for the current script has to be opened.
    Begin,
    /// The current script has to be executed.
    Run,
    /// The new record value has to be stored inside the transaction.
    Save,
    /// The transaction has to be committed.
    Commit,
    /// A step failed inside a transaction; it has to be rolled back.
    Rollback,
    /// Every domain is up to date; the connection is ready.
    Done,
    /// Initialization failed; the connection must not be used.
    Failed,
}

/// The outcome of the engine work an action asked for.
#[derive(Clone, Copy, PartialEq, Eq, Debug)]
pub enum Event {
    /// The statement (or transaction control) succeeded.
    Succeeded,
    /// The statement failed.
    Failed,
    /// The record table holds no row for the domain that was read.
    NoRecord,
    /// The record table holds this applied count for the domain.
    RecordIs(usize),
}

/// What the engine has to do next.
#[derive(Clone, PartialEq, Eq, Debug)]
pub enum Action {
    /// Execute this pragma batch.
    Configure(String),
    /// Execute this statement creating the bookkeeping table.
    EnsureRecordTable(String),
    /// Read the applied-migration record of this domain.
    ReadRecord(String),
    /// Open a transaction.
    Begin,
    /// Execute this migration script inside the open transaction.
    RunScript(String),
    /// Store this (domain, applied count) record inside the transaction.
    SaveRecord(String, usize),
    /// Commit the open transaction.
    Commit,
    /// Roll the open transaction back.
    Rollback,
}

/// Strict lexicographic order on (domain index, step index) pairs.
pub open spec fn lex_lt(a: (int, int), b: (int, int)) -> bool {
    a.0 < b.0 || (a.0 == b.0 && a.1 < b.1)
}

/// The dispatch log is contiguous: the first script dispatched for a
/// domain is exactly the one its record pointed at, and scripts of one
/// domain follow each other without a gap.  Together with the strict
/// ordering this means every pending migration is dispatched exactly
/// once, in sequence, and none is skipped or repeated.
pub open spec fn contiguous_dispatch(dispatched: Seq<(int, int)>, read_base: Map<int, int>) -> bool {
    &&& forall|i: int|
        0 <= i < dispatched.len() && (i == 0 || dispatched[i - 1].0 != (
        #[trigger] dispatched[i]).0) ==> dispatched[i].1 == read_base[dispatched[i].0]
    &&& forall|i: int|
        0 < i < dispatched.len() && dispatched[i - 1].0 == (#[trigger] dispatched[i]).0
            ==> dispatched[i].1 == dispatched[i - 1].1 + 1
}

/// Domain `d` is known to be fully migrated: either its record was
/// read as covering every registered script, or the machine itself
/// committed a transaction storing the full count.
pub open spec fn domain_covered(
    read_base: Map<int, int>,
    saved: Map<Seq<char>, int>,
    domains: Seq<Migration>,
    d: int,
) -> bool {
    ||| (read_base.contains_key(d) && read_base[d] >= domains[d].scripts@.len())
    ||| (saved.contains_key(domains[d].domain@) && saved[domains[d].domain@]
        == domains[d].scripts@.len())
}

/// Drives one connection through configuration and migration.
pub struct Initializer {
    /// The pragma batch applied before anything else.
    pub pragmas: String,
    /// The registry: domains in their fixed application order.
    pub domains: Vec<Migration>,
    /// Current pipeline phase.
    pub phase: Phase,
    /// Index of the domain being worked on.
    pub dom_idx: usize,
    /// Index of the script the open (or next) transaction applies.
    pub step_idx: usize,
    /// The applied count read from the record for the current domain.
    pub base: usize,
    /// Every script dispatched so far, as (domain index, step index).
    pub dispatched: Ghost<Seq<(int, int)>>,
    /// Per domain index, the applied count read from its record.
    pub read_base: Ghost<Map<int, int>>,
    /// Record values whose storing transaction has committed.
    pub saved: Ghost<Map<Seq<char>, int>>,
}

impl Initializer {
    /// Number of domains in the registry.
    pub open spec fn n_domains(self) -> int {
        self.domains@.len() as int
    }

    /// Number of scripts of domain `d`.
    pub open spec fn n_scripts(self, d: int) -> int {
        self.domains@[d].scripts@.len() as int
    }

    /// Name of the domain being worked on.
    pub open spec fn cur_domain_name(self) -> Seq<char> {
        self.domains@[self.dom_idx as int].domain@
    }

    /// A transaction is open, or about to be opened, for one script.
    pub open spec fn in_transaction(self) -> bool {
        self.phase is Begin || self.phase is Run || self.phase is Save || self.phase is Commit
    }

    /// The machine has finished, successfully or not.
    pub open spec fn terminal(self) -> bool {
        self.phase is Done || self.phase is Failed
    }

    /// Which outcomes answer the pending action.
    pub open spec fn event_fits(self, ev: Event) -> bool {
        match self.phase {
            Phase::ReadRecord => ev is NoRecord || ev is RecordIs || ev is Failed,
            Phase::Done => false,
            Phase::Failed => false,
            _ => ev is Succeeded || ev is Failed,
        }
    }

    /// Well-formedness: counters stay inside the registry, the dispatch
    /// log is strictly ordered, and no logged script undercuts the
    /// record that was read for its domain.
    pub open spec fn wf(self) -> bool {
        &&& self.dom_idx as int <= self.n_domains()
        &&& (self.phase is ReadRecord || self.in_transaction()) ==> (self.dom_idx as int)
            < self.n_domains()
        &&& self.in_transaction() ==> {
            &&& self.base <= self.step_idx
            &&& (self.step_idx as int) < self.n_scripts(self.dom_idx as int)
            &&& self.read_base@.contains_key(self.dom_idx as int)
            &&& self.read_base@[self.dom_idx as int] == self.base as int
        }
        &&& forall|i: int, j: int|
            0 <= i < j < self.dispatched@.len() ==> lex_lt(
                self.dispatched@[i],
                self.dispatched@[j],
            )
        &&& forall|i: int|
            0 <= i < self.dispatched@.len() ==> {
                &&& 0 <= #[trigger] self.dispatched@[i].0 < self.n_domains()
                &&& 0 <= self.dispatched@[i].1 < self.n_scripts(self.dispatched@[i].0)
                &&& self.read_base@.contains_key(self.dispatched@[i].0)
                &&& self.dispatched@[i].1 >= self.read_base@[self.dispatched@[i].0]
            }
        &&& (self.phase is Configure || self.phase is EnsureTable) ==> self.dispatched@.len()
            == 0 && self.dom_idx == 0
        &&& self.phase is ReadRecord ==> forall|i: int|
            0 <= i < self.dispatched@.len() ==> (#[trigger] self.dispatched@[i]).0
                < self.dom_idx as int
        &&& self.phase is Begin ==> forall|i: int|
            0 <= i < self.dispatched@.len() ==> lex_lt(
                #[trigger] self.dispatched@[i],
                (self.dom_idx as int, self.step_idx as int),
            )
        &&& (self.phase is Run || self.phase is Save || self.phase is Commit) ==> {
            &&& self.dispatched@.len() > 0
            &&& self.dispatched@.last() == (self.dom_idx as int, self.step_idx as int)
        }
        &&& self.phase is Done ==> self.dom_idx as int == self.n_domains()
        &&& self.phase is Begin ==> {
            ||| (self.step_idx == self.base && forall|i: int|
                0 <= i < self.dispatched@.len() ==> (#[trigger] self.dispatched@[i]).0
                    != self.dom_idx as int)
            ||| (self.dispatched@.len() > 0 && self.dispatched@.last() == (
                self.dom_idx as int,
                self.step_idx as int - 1,
            ))
        }
        &&& contiguous_dispatch(self.dispatched@, self.read_base@)
        &&& self.distinct_domains()
        &&& !(self.phase is Configure || self.phase is EnsureTable) ==> forall|d: int|
            0 <= d < self.dom_idx as int ==> domain_covered(
                self.read_base@,
                self.saved@,
                self.domains@,
                d,
            )
    }

    /// No two domains of the registry share a name.
    pub open spec fn distinct_domains(self) -> bool {
        forall|i: int, j: int|
            0 <= i < j < self.n_domains() ==> self.domains@[i].domain@ != self.domains@[j].domain@
    }

    /// `a` is exactly the action the current phase calls for.
    pub open spec fn action_is(self, a: Action) -> bool {
        match self.phase {
            Phase::Configure => a matches Action::Configure(q) && q@ == self.pragmas@,
            Phase::EnsureTable => a matches Action::EnsureRecordTable(q) && q@
                == record_table_sql_spec(),
            Phase::ReadRecord => a matches Action::ReadRecord(n) && n@ == self.cur_domain_name(),
            Phase::Begin => a is Begin,
            Phase::Run => a matches Action::RunScript(q) && q@ == self.domains@[self.dom_idx
                as int].scripts@[self.step_idx as int]@,
            Phase::Save => a matches Action::SaveRecord(n, c) && n@ == self.cur_domain_name()
                && c == self.step_idx + 1,
            Phase::Commit => a is Commit,
            Phase::Rollback => a is Rollback,
            Phase::Done => false,
            Phase::Failed => false,
        }
    }

    /// A machine at the start of the pipeline for this configuration
    /// and registry.
    pub fn new(pragmas: String, domains: Vec<Migration>) -> (r: Initializer)
        requires
            forall|i: int, j: int|
                0 <= i < j < domains@.len() ==> domains@[i].domain@ != domains@[j].domain@,
        ensures
            r.wf(),
            r.phase is Configure,
            r.pragmas == pragmas,
            r.domains == domains,
            r.dom_idx == 0,
            r.step_idx == 0,
            r.base == 0,
            r.dispatched@ == Seq::<(int, int)>::empty(),
            r.read_base@ == Map::<int, int>::empty(),
            r.saved@ == Map::<Seq<char>, int>::empty(),
    {
        Initializer {
            pragmas,
            domains,
            phase: Phase::Configure,
            dom_idx: 0,
            step_idx: 0,
            base: 0,
            dispatched: Ghost(Seq::empty()),
            read_base: Ghost(Map::empty()),
            saved: Ghost(Map::empty()),
        }
    }

    /// The engine is done with this connection, every domain up to date.
    pub fn is_done(&self) -> (b: bool)
        ensures
            b == (self.phase is Done),
    {
        matches!(self.phase, Phase::Done)
    }

    /// Initialization failed; the connection must not be handed out.
    pub fn is_failed(&self) -> (b: bool)
        ensures
            b == (self.phase is Failed),
    {
        matches!(self.phase, Phase::Failed)
    }

    /// The action the engine has to carry out next.
    pub fn action(&self) -> (a: Action)
        requires
            self.wf(),
            !self.terminal(),
        ensures
            self.action_is(a),
    {
        match self.phase {
            Phase::Configure => Action::Configure(self.pragmas.clone()),
            Phase::EnsureTable => Action::EnsureRecordTable(record_table_sql()),
            Phase::ReadRecord => Action::ReadRecord(self.domains[self.dom_idx].domain.clone()),
            Phase::Begin => Action::Begin,
            Phase::Run => Action::RunScript(
                self.domains[self.dom_idx].scripts[self.step_idx].clone(),
            ),
            Phase::Save => {
                let n: usize = self.domains[self.dom_idx].scripts.len();
                assert(self.step_idx < n);
                Action::SaveRecord(self.domains[self.dom_idx].domain.clone(), self.step_idx + 1)
            },
            Phase::Commit => Action::Commit,
            Phase::Rollback => Action::Rollback,
            // a terminal machine is excluded by the precondition; these
            // arms only make the match total
            Phase::Done => Action::Rollback,
            Phase::Failed => Action::Rollback,
        }
    }

    /// Consume the outcome of the pending action and move to the next
    /// decision.  The machine changes exactly as `transition` says.
    pub fn advance(&mut self, ev: Event)
        requires
            old(self).wf(),
            !old(self).terminal(),
            old(self).event_fits(ev),
        ensures
            final(self).wf(),
            transition(*old(self), ev, *final(self)),
    {
        match (self.phase, ev) {
            (Phase::Configure, Event::Succeeded) => {
                self.phase = Phase::EnsureTable;
            },
            (Phase::Configure, Event::Failed) => {
                self.phase = Phase::Failed;
            },
            (Phase::EnsureTable, Event::Succeeded) => {
                if self.domains.len() == 0 {
                    self.phase = Phase::Done;
                } else {
                    self.dom_idx = 0;
                    self.step_idx = 0;
                    self.base = 0;
                    self.phase = Phase::ReadRecord;
                }
            },
            (Phase::EnsureTable, Event::Failed) => {
                self.phase = Phase::Failed;
            },
            (Phase::ReadRecord, Event::NoRecord) => {
                self.apply_read(0);
            },
            (Phase::ReadRecord, Event::RecordIs(r)) => {
                self.apply_read(r);
            },
            (Phase::ReadRecord, Event::Failed) => {
                self.phase = Phase::Failed;
            },
            (Phase::Begin, Event::Succeeded) => {
                self.dispatched = Ghost(
                    self.dispatched@.push((self.dom_idx as int, self.step_idx as int)),
                );
                self.phase = Phase::Run;
            },
            (Phase::Begin, Event::Failed) => {
                self.phase = Phase::Failed;
            },
            (Phase::Run, Event::Succeeded) => {
                self.phase = Phase::Save;
            },
            (Phase::Run, Event::Failed) => {
                self.phase = Phase::Rollback;
            },
            (Phase::Save, Event::Succeeded) => {
                self.phase = Phase::Commit;
            },
            (Phase::Save, Event::Failed) => {
                self.phase = Phase::Rollback;
            },
            (Phase::Commit, Event::Succeeded) => {
                proof {
                    let disp = self.dispatched@;
                    let d: int = self.dom_idx as int;
                    let s: int = self.step_idx as int;
                    assert(disp[disp.len() - 1] == (d, s));
                    assert forall|i: int| 0 <= i < disp.len() implies lex_lt(
                        disp[i],
                        (d, s + 1),
                    ) && disp[i].0 < d + 1 by {
                        if i < disp.len() - 1 {
                            assert(lex_lt(disp[i], disp[disp.len() - 1]));
                        }
                    }
                }
                self.saved = Ghost(
                    self.saved@.insert(self.cur_domain_name(), self.step_idx + 1),
                );
                let n: usize = self.domains[self.dom_idx].scripts.len();
                let total: usize = self.domains.len();
                if self.step_idx + 1 == n {
                    self.dom_idx = self.dom_idx + 1;
                    self.step_idx = 0;
                    self.base = 0;
                    self.phase = if self.dom_idx == total {
                        Phase::Done
                    } else {
                        Phase::ReadRecord
                    };
                } else {
                    self.step_idx = self.step_idx + 1;
                    self.phase = Phase::Begin;
                }
                proof {
                    let pre = *old(self);
                    let d: int = pre.dom_idx as int;
                    assert forall|dp: int| 0 <= dp < self.dom_idx as int implies domain_covered(
                        self.read_base@,
                        self.saved@,
                        self.domains@,
                        dp,
                    ) by {
                        if dp < d {
                            assert(domain_covered(pre.read_base@, pre.saved@, pre.domains@, dp));
                            assert(pre.domains@[dp].domain@ != pre.domains@[d].domain@);
                        } else {
                            assert(self.saved@[pre.cur_domain_name()] == pre.step_idx + 1);
                        }
                    }
                }
            },
            (Phase::Commit, Event::Failed) => {
                self.phase = Phase::Rollback;
            },
            (Phase::Rollback, _) => {
                self.phase = Phase::Failed;
            },
            _ => {
                proof {
                    assert(false);
                }
            },
        }
    }

    /// The record of the current domain was read as `r` applied
    /// scripts; skip the domain or line up its first missing script.
    fn apply_read(&mut self, r: usize)
        requires
            old(self).wf(),
            old(self).phase is ReadRecord,
        ensures
            final(self).wf(),
            read_transition(*old(self), r as int, *final(self)),
            final(self).pragmas == old(self).pragmas,
            final(self).domains == old(self).domains,
    {
        self.read_base = Ghost(self.read_base@.insert(self.dom_idx as int, r as int));
        let n: usize = self.domains[self.dom_idx].scripts.len();
        let total: usize = self.domains.len();
        if r >= n {
            self.dom_idx = self.dom_idx + 1;
            self.step_idx = 0;
            self.base = 0;
            self.phase = if self.dom_idx == total {
                Phase::Done
            } else {
                Phase::ReadRecord
            };
        } else {
            self.base = r;
            self.step_idx = r;
            self.phase = Phase::Begin;
        }
        proof {
            let pre = *old(self);
            let d: int = pre.dom_idx as int;
            assert forall|dp: int| 0 <= dp < self.dom_idx as int implies domain_covered(
                self.read_base@,
                self.saved@,
                self.domains@,
                dp,
            ) by {
                if dp < d {
                    assert(domain_covered(pre.read_base@, pre.saved@, pre.domains@, dp));
                    assert(self.read_base@.contains_key(dp) == pre.read_base@.contains_key(dp));
                } else {
                    assert(self.read_base@[d] == r as int);
                }
            }
        }
    }
}

/// The counters of `post` are those of `pre`.
pub open spec fn same_counters(pre: Initializer, post: Initializer) -> bool {
    &&& post.dom_idx == pre.dom_idx
    &&& post.step_idx == pre.step_idx
    &&& post.base == pre.base
}

/// The ghost bookkeeping of `post` is that of `pre`.
pub open spec fn same_log(pre: Initializer, post: Initializer) -> bool {
    &&& post.dispatched@ == pre.dispatched@
    &&& post.read_base@ == pre.read_base@
    &&& post.saved@ == pre.saved@
}

/// `post` is `pre` after the record of the current domain was read as
/// `r` applied scripts: an up-to-date domain (including one written by
/// a newer build) is skipped without dispatching anything, otherwise
/// the first missing script is lined up.
pub open spec fn read_transition(pre: Initializer, r: int, post: Initializer) -> bool {
    &&& post.dispatched@ == pre.dispatched@
    &&& post.saved@ == pre.saved@
    &&& post.read_base@ == pre.read_base@.insert(pre.dom_idx as int, r)
    &&& if r >= pre.n_scripts(pre.dom_idx as int) {
        &&& post.dom_idx == pre.dom_idx + 1
        &&& post.step_idx == 0
        &&& post.base == 0
        &&& post.phase == (if pre.dom_idx + 1 == pre.n_domains() {
            Phase::Done
        } else {
            Phase::ReadRecord
        })
    } else {
        &&& post.phase is Begin
        &&& post.dom_idx == pre.dom_idx
        &&& post.base as int == r
        &&& post.step_idx as int == r
    }
}

/// `post` is `pre` after the transaction for the current script
/// committed: only now is the new record value known to be stored, and
/// the machine moves to the next script or the next domain.
pub open spec fn commit_transition(pre: Initializer, post: Initializer) -> bool {
    &&& post.dispatched@ == pre.dispatched@
    &&& post.read_base@ == pre.read_base@
    &&& post.saved@ == pre.saved@.insert(pre.cur_domain_name(), pre.step_idx + 1)
    &&& if pre.step_idx + 1 == pre.n_scripts(pre.dom_idx as int) {
        &&& post.dom_idx == pre.dom_idx + 1
        &&& post.step_idx == 0
        &&& post.base == 0
        &&& post.phase == (if pre.dom_idx + 1 == pre.n_domains() {
            Phase::Done
        } else {
            Phase::ReadRecord
        })
    } else {
        &&& post.phase is Begin
        &&& post.dom_idx == pre.dom_idx
        &&& post.step_idx == pre.step_idx + 1
        &&& post.base == pre.base
    }
}

/// The full transition relation of the machine: what one call of
/// `advance` does for every phase and every fitting outcome.
pub open spec fn transition(pre: Initializer, ev: Event, post: Initializer) -> bool {
    &&& post.pragmas == pre.pragmas
    &&& post.domains == pre.domains
    &&& match (pre.phase, ev) {
        (Phase::Configure, Event::Succeeded) => post.phase is EnsureTable && same_counters(
            pre,
            post,
        ) && same_log(pre, post),
        (Phase::Configure, Event::Failed) => post.phase is Failed && same_counters(pre, post)
            && same_log(pre, post),
        (Phase::EnsureTable, Event::Succeeded) => {
            &&& same_log(pre, post)
            &&& if pre.n_domains() == 0 {
                post.phase is Done && same_counters(pre, post)
            } else {
                &&& post.phase is ReadRecord
                &&& post.dom_idx == 0
                &&& post.step_idx == 0
                &&& post.base == 0
            }
        },
        (Phase::EnsureTable, Event::Failed) => post.phase is Failed && same_counters(pre, post)
            && same_log(pre, post),
        (Phase::ReadRecord, Event::Failed) => post.phase is Failed && same_counters(pre, post)
            && same_log(pre, post),
        (Phase::ReadRecord, Event::NoRecord) => read_transition(pre, 0, post),
        (Phase::ReadRecord, Event::RecordIs(r)) => read_transition(pre, r as int, post),
        (Phase::Begin, Event::Succeeded) => {
            &&& post.phase is Run
            &&& same_counters(pre, post)
            &&& post.dispatched@ == pre.dispatched@.push(
                (pre.dom_idx as int, pre.step_idx as int),
            )
            &&& post.read_base@ == pre.read_base@
            &&& post.saved@ == pre.saved@
        },
        (Phase::Begin, Event::Failed) => post.phase is Failed && same_counters(pre, post)
            && same_log(pre, post),
        (Phase::Run, Event::Succeeded) => post.phase is Save && same_counters(pre, post)
            && same_log(pre, post),
        (Phase::Run, Event::Failed) => post.phase is Rollback && same_counters(pre, post)
            && same_log(pre, post),
        (Phase::Save, Event::Succeeded) => post.phase is Commit && same_counters(pre, post)
            && same_log(pre, post),
        (Phase::Save, Event::Failed) => post.phase is Rollback && same_counters(pre, post)
            && same_log(pre, post),
        (Phase::Commit, Event::Succeeded) => commit_transition(pre, post),
        (Phase::Commit, Event::Failed) => post.phase is Rollback && same_counters(pre, post)
            && same_log(pre, post),
        (Phase::Rollback, _) => post.phase is Failed && same_counters(pre, post) && same_log(
            pre,
            post,
        ),
        _ => false,
    }
}

/// Migrations execute in non-decreasing sequence order: the dispatch
/// log of any reachable machine is strictly increasing in (domain,
/// step), and no dispatched script has a step index below the applied
/// count that was read from its domain's record — a migration already
/// recorded as applied is never re-applied.  The log is moreover
/// contiguous: each domain starts exactly at its recorded count and
/// proceeds without a gap, so every pending migration is dispatched
/// exactly once.
pub proof fn lemma_migration_order(st: Initializer)
    requires
        st.wf(),
    ensures
        forall|i: int, j: int|
            0 <= i < j < st.dispatched@.len() ==> lex_lt(st.dispatched@[i], st.dispatched@[j]),
        forall|i: int|
            0 <= i < st.dispatched@.len() ==> (#[trigger] st.dispatched@[i]).1
                >= st.read_base@[st.dispatched@[i].0],
        contiguous_dispatch(st.dispatched@, st.read_base@),
{
}

/// A failing step never moves the applied-migration record: whatever
/// phase reports failure, the set of record values stored by committed
/// transactions is unchanged, and the machine heads for rollback or
/// directly for the failed state.  No partial schema change is ever
/// recorded.
pub proof fn lemma_failure_preserves_record(pre: Initializer, post: Initializer)
    requires
        transition(pre, Event::Failed, post),
    ensures
        post.saved@ == pre.saved@,
        post.phase is Rollback || post.phase is Failed,
{
}

/// The record moves only through a committed transaction: every
/// transition either leaves the stored record values unchanged or is
/// the successful commit of the current script, which records exactly
/// that script's index for the current domain.
pub proof fn lemma_record_changes_only_on_commit(pre: Initializer, ev: Event, post: Initializer)
    requires
        transition(pre, ev, post),
    ensures
        post.saved@ == pre.saved@ || (pre.phase is Commit && ev is Succeeded && post.saved@
            == pre.saved@.insert(pre.cur_domain_name(), pre.step_idx + 1)),
{
}

/// After a successful initialization every domain of the registry is
/// fully migrated: its record was read as already covering all its
/// scripts (a newer build wrote it), or the machine itself committed
/// the full count.
pub proof fn lemma_done_record_complete(st: Initializer)
    requires
        st.wf(),
        st.phase is Done,
    ensures
        forall|d: int|
            0 <= d < st.n_domains() ==> domain_covered(st.read_base@, st.saved@, st.domains@, d),
{
}

/// Configuration precedes migration: while the durability pragmas
/// have not been applied nothing has been dispatched, and a
/// configuration failure ends the run before any migration can start.
pub proof fn lemma_configure_first(pre: Initializer, ev: Event, post: Initializer)
    requires
        pre.wf(),
        transition(pre, ev, post),
        pre.phase is Configure,
    ensures
        pre.dispatched@.len() == 0,
        !(ev is Succeeded) ==> post.phase is Failed && post.dispatched@.len() == 0,
{
}

/// Reading a domain's record decides its fate exactly as the record
/// model says: when no step remains the domain is passed over
/// untouched, and when steps remain the machine lines up the first
/// missing script — the one the record points at — on its way to the
/// full count.
pub proof fn lemma_read_follows_model(pre: Initializer, r: int, post: Initializer)
    requires
        pre.wf(),
        pre.phase is ReadRecord,
        0 <= r,
        read_transition(pre, r, post),
    ensures
        steps_remaining(r, pre.n_scripts(pre.dom_idx as int)) == 0 <==> post.dom_idx == pre.dom_idx
            + 1,
        steps_remaining(r, pre.n_scripts(pre.dom_idx as int)) > 0 ==> post.phase is Begin
            && post.step_idx as int == r && record_after(r, pre.n_scripts(pre.dom_idx as int))
            == pre.n_scripts(pre.dom_idx as int),
{
}

/// Rank of the two pipeline phases that precede the per-domain loop.
pub open spec fn startup_rank(p: Phase) -> int {
    match p {
        Phase::Configure => 2,
        Phase::EnsureTable => 1,
        _ => 0,
    }
}

/// Rank of the phases inside one transaction.
pub open spec fn txn_rank(p: Phase) -> int {
    match p {
        Phase::Begin => 3,
        Phase::Run => 2,
        Phase::Save => 1,
        _ => 0,
    }
}

/// Work remaining in the current domain: everything while its record
/// is still unread, the scripts still to commit once inside the loop.
pub open spec fn steps_rank(st: Initializer) -> int {
    if st.phase is ReadRecord {
        st.n_scripts(st.dom_idx as int) + 1
    } else if st.in_transaction() {
        st.n_scripts(st.dom_idx as int) - st.step_idx
    } else {
        0
    }
}

/// The termination measure of `a` lies strictly below that of `b`:
/// lexicographically, startup work, then domains left, then work left
/// in the current domain, then position inside the transaction.
pub open spec fn measure_lt(a: Initializer, b: Initializer) -> bool {
    let sa = startup_rank(a.phase);
    let sb = startup_rank(b.phase);
    let da = a.n_domains() - a.dom_idx;
    let db = b.n_domains() - b.dom_idx;
    let ta = steps_rank(a);
    let tb = steps_rank(b);
    ||| sa < sb
    ||| (sa == sb && da < db)
    ||| (sa == sb && da == db && ta < tb)
    ||| (sa == sb && da == db && ta == tb && txn_rank(a.phase) < txn_rank(b.phase))
}

/// Progress: as long as the engine keeps succeeding, every step of the
/// machine strictly decreases a lexicographic measure.  A run is never
/// cancelled and cannot loop: it ends in the done state, or in the
/// failed state once the engine reports a failure.
pub proof fn lemma_progress(pre: Initializer, ev: Event, post: Initializer)
    requires
        pre.wf(),
        transition(pre, ev, post),
        !(ev is Failed),
        !post.terminal(),
    ensures
        measure_lt(post, pre),
{
}

/// A run of the machine: `sts` are the visited states, `evs[i]` the
/// outcome that took `sts[i]` to `sts[i + 1]`.
pub open spec fn is_run(sts: Seq<Initializer>, evs: Seq<Event>) -> bool {
    &&& sts.len() == evs.len() + 1
    &&& forall|i: int| 0 <= i < evs.len() ==> transition(sts[i], #[trigger] evs[i], sts[i + 1])
}

/// A run in which the engine answered every record read with a count
/// covering the whole domain and every other action with success.
pub open spec fn up_to_date_run(sts: Seq<Initializer>, evs: Seq<Event>) -> bool {
    &&& is_run(sts, evs)
    &&& forall|i: int|
        0 <= i < evs.len() ==> (sts[i].phase is ReadRecord ==> (#[trigger] evs[i] matches
        Event::RecordIs(r) && r as int >= sts[i].n_scripts(sts[i].dom_idx as int)))
    &&& forall|i: int|
        0 <= i < evs.len() ==> (!(sts[i].phase is ReadRecord) ==> #[trigger] evs[i]
            is Succeeded)
}

/// Initialization is idempotent.  A run that starts at the beginning
/// of the pipeline against a database whose record already covers the
/// full registry — such as the database a previous successful
/// initialization left behind — dispatches no script, stores no record
/// value, and never enters a transaction, a rollback, or the failed
/// state.
pub proof fn lemma_up_to_date_run_dispatches_nothing(
    sts: Seq<Initializer>,
    evs: Seq<Event>,
    k: int,
)
    requires
        up_to_date_run(sts, evs),
        sts.len() >= 1,
        sts[0].phase is Configure,
        0 <= k < sts.len(),
    ensures
        sts[k].phase is Configure || sts[k].phase is EnsureTable || sts[k].phase is ReadRecord
            || sts[k].phase is Done,
        sts[k].dispatched@ == sts[0].dispatched@,
        sts[k].saved@ == sts[0].saved@,
    decreases k,
{
    if k > 0 {
        lemma_up_to_date_run_dispatches_nothing(sts, evs, k - 1);
        assert(transition(sts[k - 1], evs[k - 1], sts[k]));
    }
}

/// Statement creating the bookkeeping table that maps each domain name
/// to the count of its scripts already applied.
pub open spec fn record_table_sql_spec() -> Seq<char> {
    "CREATE TABLE IF NOT EXISTS migrations (domain TEXT PRIMARY KEY, step INTEGER NOT NULL)"@
}

/// See `record_table_sql_spec`.
pub fn record_table_sql() -> (r: String)
    ensures
        r@ == record_table_sql_spec(),
{
    "CREATE TABLE IF NOT EXISTS migrations (domain TEXT PRIMARY KEY, step INTEGER NOT NULL)".to_owned()
}

/// Query reading the applied count of one domain; the engine binds the
/// domain name of a `ReadRecord` action to the parameter.
pub fn read_record_sql() -> (r: String)
    ensures
        r@ == "SELECT step FROM migrations WHERE domain = ?"@,
{
    "SELECT step FROM migrations WHERE domain = ?".to_owned()
}

/// Statement storing the applied count of one domain; the engine binds
/// the fields of a `SaveRecord` action to the parameters.
pub fn save_record_sql() -> (r: String)
    ensures
        r@ == "INSERT OR REPLACE INTO migrations (domain, step) VALUES (?, ?)"@,
{
    "INSERT OR REPLACE INTO migrations (domain, step) VALUES (?, ?)".to_owned()
}

} // verus!
