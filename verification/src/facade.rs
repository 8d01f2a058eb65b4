//! The public entry point: a database handle keyed by storage root and
//! release channel, or by name for a private in-memory instance.
//!
//! Opening resolves the storage location, fixes the pragma
//! configuration, and sets up the initialization machine over the
//! migration registry.  The embedded engine executes what the machine
//! dispatches; the handle is ready for callers only once the machine
//! reports done, so nobody ever observes a partially migrated schema.

use vstd::prelude::*;
use crate::initializer::{Action, Event, Initializer, transition};
use crate::location::db_file_path;
use crate::location::db_path_spec;
use crate::migrations::Migration;

verus! {

/// The pragma batch every connection gets before its migrations run:
/// write-ahead logging (crash safe, readers stay concurrent with a
/// writer), relaxed-but-safe synchronization (durable across an
/// application crash), enforced foreign keys, and case-sensitive
/// pattern matching.  Fixed; callers cannot override it.
pub open spec fn standard_pragmas_spec() -> Seq<char> {
    "PRAGMA journal_mode=WAL;\nPRAGMA synchronous=NORMAL;\nPRAGMA foreign_keys=TRUE;\nPRAGMA case_sensitive_like=TRUE;\n"@
}

/// See `standard_pragmas_spec`.
pub fn standard_pragmas() -> (r: String)
    ensures
        r@ == standard_pragmas_spec(),
{
    "PRAGMA journal_mode=WAL;\nPRAGMA synchronous=NORMAL;\nPRAGMA foreign_keys=TRUE;\nPRAGMA case_sensitive_like=TRUE;\n".to_owned()
}

/// A live-backup instruction for the engine: copy the full content of
/// the source database, as one consistent snapshot, to a fresh file at
/// the destination, without taking an exclusive lock on the source.
pub struct BackupRequest {
    /// Location of the source database (path, or in-memory name).
    pub source: String,
    /// Whether the source is file-backed.
    pub source_persistent: bool,
    /// Path of the file the copy goes to.
    pub dest: String,
}

/// One database: a storage location, whether it is file-backed, and
/// the initialization machine that brings its schema up to date.
pub struct Db {
    /// True for a file-backed database, false for an in-memory one.
    pub persistent: bool,
    /// File path, or the name of the in-memory instance.
    pub location: String,
    /// The connection-initialization machine for this database.
    pub init: Initializer,
}

impl Db {
    /// The handle and its machine are well formed.
    pub open spec fn wf(self) -> bool {
        self.init.wf()
    }

    /// A file-backed database under `db_dir`, namespaced by `channel`
    /// so that release streams never share state, with the standard
    /// pragmas and the given migration registry.  The storage
    /// directory itself is created by the caller before the engine
    /// opens the file; failing to create it is a fatal startup error.
    pub fn open(db_dir: &str, channel: &str, migrations: Vec<Migration>) -> (db: Db)
        requires
            forall|i: int, j: int|
                0 <= i < j < migrations@.len() ==> migrations@[i].domain@
                    != migrations@[j].domain@,
        ensures
            db.wf(),
            db.persistent,
            db.location@ == db_path_spec(db_dir@, channel@),
            db.init.phase is Configure,
            db.init.pragmas@ == standard_pragmas_spec(),
            db.init.domains == migrations,
            db.init.dispatched@ == Seq::<(int, int)>::empty(),
            db.init.read_base@ == Map::<int, int>::empty(),
            db.init.saved@ == Map::<Seq<char>, int>::empty(),
    {
        Db {
            persistent: true,
            location: db_file_path(db_dir, channel),
            init: Initializer::new(standard_pragmas(), migrations),
        }
    }

    /// A private in-memory database, for tests and as the fallback
    /// when persistent storage cannot be established.  No file-system
    /// directory is involved, and the data dies with the instance.
    /// Two calls with the same name yield two independent instances:
    /// nothing is shared by name.
    pub fn open_in_memory(db_name: &str, migrations: Vec<Migration>) -> (db: Db)
        requires
            forall|i: int, j: int|
                0 <= i < j < migrations@.len() ==> migrations@[i].domain@
                    != migrations@[j].domain@,
        ensures
            db.wf(),
            !db.persistent,
            db.location@ == db_name@,
            db.init.phase is Configure,
            db.init.pragmas@ == standard_pragmas_spec(),
            db.init.domains == migrations,
            db.init.dispatched@ == Seq::<(int, int)>::empty(),
            db.init.read_base@ == Map::<int, int>::empty(),
            db.init.saved@ == Map::<Seq<char>, int>::empty(),
    {
        Db {
            persistent: false,
            location: db_name.to_owned(),
            init: Initializer::new(standard_pragmas(), migrations),
        }
    }

    /// Whether this instance is backed by a file; callers use it to
    /// warn that an in-memory fallback will not survive a restart.
    pub fn persisting(&self) -> (b: bool)
        ensures
            b == self.persistent,
    {
        self.persistent
    }

    /// The action the engine has to carry out next to initialize this
    /// database.
    pub fn init_action(&self) -> (a: Action)
        requires
            self.wf(),
            !self.init.terminal(),
        ensures
            self.init.action_is(a),
    {
        self.init.action()
    }

    /// Feed the outcome of the pending action back.  Only the machine
    /// moves; the location and the persistence mode never change.
    pub fn init_advance(&mut self, ev: Event)
        requires
            old(self).wf(),
            !old(self).init.terminal(),
            old(self).init.event_fits(ev),
        ensures
            final(self).wf(),
            final(self).persistent == old(self).persistent,
            final(self).location == old(self).location,
            transition(old(self).init, ev, final(self).init),
    {
        self.init.advance(ev);
    }

    /// Initialization has completed; the handle may be given out.
    pub fn ready(&self) -> (b: bool)
        ensures
            b == (self.init.phase is Done),
    {
        self.init.is_done()
    }

    /// Initialization failed; the database cannot be trusted and the
    /// handle must not be given out.  This is a fatal startup error.
    pub fn init_failed(&self) -> (b: bool)
        ensures
            b == (self.init.phase is Failed),
    {
        self.init.is_failed()
    }

    /// A consistent point-in-time backup of this database into a fresh
    /// file at `dest`.  The instruction only reads the handle: issuing
    /// it cannot change the source, and the engine copies a snapshot
    /// while readers and writers keep going.
    pub fn write_to(&self, dest: &str) -> (r: BackupRequest)
        ensures
            r.source@ == self.location@,
            r.source_persistent == self.persistent,
            r.dest@ == dest@,
    {
        BackupRequest {
            source: self.location.clone(),
            source_persistent: self.persistent,
            dest: dest.to_owned(),
        }
    }
}

} // verus!
