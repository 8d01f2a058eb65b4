//! The migration registry and its bookkeeping model.
//!
//! A migration domain groups the schema scripts of one logical store
//! (key-value pairs, workspaces, panes, items).  Within a domain the
//! scripts form an ordered sequence; the engine records, per domain,
//! how many of them have been applied.  A recorded count higher than
//! the number of known scripts means the file was written by a newer
//! build: the domain is treated as already up to date and nothing is
//! ever undone.

use vstd::prelude::*;

verus! {

/// One migration domain: a name and its ordered schema scripts.
/// The script at position `i` is the migration with sequence index
/// `i + 1`; the bookkeeping record stores, per domain, the count of
/// scripts applied so far.
pub struct Migration {
    pub domain: String,
    pub scripts: Vec<String>,
}

/// The applied-migration record of one domain after the registry has
/// been driven over it: every missing script is applied, and a record
/// from a newer build is left untouched.
pub open spec fn record_after(recorded: int, count: int) -> int {
    if recorded >= count {
        recorded
    } else {
        count
    }
}

/// How many scripts of a domain with `count` scripts still have to run
/// when `recorded` of them are already applied.
pub open spec fn steps_remaining(recorded: int, count: int) -> int {
    record_after(recorded, count) - recorded
}

/// Applying a domain's migrations is idempotent: a second pass over a
/// domain whose record the first pass produced has nothing left to do
/// and leaves the record unchanged.
pub proof fn lemma_apply_idempotent(recorded: int, count: int)
    ensures
        record_after(record_after(recorded, count), count) == record_after(recorded, count),
        steps_remaining(record_after(recorded, count), count) == 0,
{
}

/// Forward tolerance: a record written by a newer build (more scripts
/// applied than this build knows) is never touched, and no script runs.
pub proof fn lemma_forward_tolerant(recorded: int, count: int)
    requires
        recorded >= count,
    ensures
        record_after(recorded, count) == recorded,
        steps_remaining(recorded, count) == 0,
{
}

} // verus!
