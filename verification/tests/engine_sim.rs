//! Drives the initialization machine against a small simulated engine
//! and checks the end-to-end behaviour of the pipeline.

use db::facade::Db;
use db::initializer::{Action, Event};
use db::migrations::Migration;

/// A simulated embedded engine: a record table, a log of committed
/// statements, and an optional script text that fails when executed.
struct SimEngine {
    records: Vec<(String, usize)>,
    committed_sql: Vec<String>,
    fail_on_script: Option<String>,
    in_txn: bool,
    pending_sql: Vec<String>,
    pending_record: Option<(String, usize)>,
}

impl SimEngine {
    fn new() -> SimEngine {
        SimEngine {
            records: Vec::new(),
            committed_sql: Vec::new(),
            fail_on_script: None,
            in_txn: false,
            pending_sql: Vec::new(),
            pending_record: None,
        }
    }

    fn record_of(&self, domain: &str) -> Option<usize> {
        self.records
            .iter()
            .find(|(d, _)| d == domain)
            .map(|(_, n)| *n)
    }

    fn set_record(&mut self, domain: String, n: usize) {
        if let Some(entry) = self.records.iter_mut().find(|(d, _)| *d == domain) {
            entry.1 = n;
        } else {
            self.records.push((domain, n));
        }
    }

    fn perform(&mut self, action: &Action) -> Event {
        match action {
            Action::Configure(_) => Event::Succeeded,
            Action::EnsureRecordTable(_) => Event::Succeeded,
            Action::ReadRecord(domain) => match self.record_of(domain) {
                Some(n) => Event::RecordIs(n),
                None => Event::NoRecord,
            },
            Action::Begin => {
                assert!(!self.in_txn, "nested transaction");
                self.in_txn = true;
                self.pending_sql.clear();
                self.pending_record = None;
                Event::Succeeded
            }
            Action::RunScript(sql) => {
                assert!(self.in_txn, "script outside a transaction");
                if self.fail_on_script.as_deref() == Some(sql.as_str()) {
                    return Event::Failed;
                }
                self.pending_sql.push(sql.clone());
                Event::Succeeded
            }
            Action::SaveRecord(domain, n) => {
                assert!(self.in_txn, "record change outside a transaction");
                self.pending_record = Some((domain.clone(), *n));
                Event::Succeeded
            }
            Action::Commit => {
                assert!(self.in_txn, "commit without a transaction");
                self.committed_sql.append(&mut self.pending_sql);
                if let Some((domain, n)) = self.pending_record.take() {
                    self.set_record(domain, n);
                }
                self.in_txn = false;
                Event::Succeeded
            }
            Action::Rollback => {
                assert!(self.in_txn, "rollback without a transaction");
                self.pending_sql.clear();
                self.pending_record = None;
                self.in_txn = false;
                Event::Succeeded
            }
        }
    }
}

/// Runs the machine of `db` against `eng` until it is done or failed;
/// returns every script it dispatched, in order.
fn drive(db: &mut Db, eng: &mut SimEngine) -> Vec<String> {
    let mut dispatched = Vec::new();
    let mut fuel: u32 = 10_000;
    while !db.ready() && !db.init_failed() {
        assert!(fuel > 0, "initialization did not terminate");
        fuel -= 1;
        let action = db.init_action();
        if let Action::RunScript(sql) = &action {
            dispatched.push(sql.clone());
        }
        let outcome = eng.perform(&action);
        db.init_advance(outcome);
    }
    dispatched
}

fn registry() -> Vec<Migration> {
    vec![
        Migration {
            domain: "kvp".to_owned(),
            scripts: vec![
                "CREATE TABLE kv_store (key TEXT PRIMARY KEY, value TEXT NOT NULL)".to_owned(),
            ],
        },
        Migration {
            domain: "workspace".to_owned(),
            scripts: vec![
                "CREATE TABLE workspaces (workspace_id INTEGER PRIMARY KEY)".to_owned(),
                "ALTER TABLE workspaces ADD COLUMN timestamp TEXT".to_owned(),
            ],
        },
        Migration {
            domain: "pane".to_owned(),
            scripts: vec![
                "CREATE TABLE panes (pane_id INTEGER PRIMARY KEY, workspace_id INTEGER REFERENCES workspaces(workspace_id))".to_owned(),
            ],
        },
        Migration {
            domain: "item".to_owned(),
            scripts: vec![
                "CREATE TABLE items (item_id INTEGER PRIMARY KEY, pane_id INTEGER REFERENCES panes(pane_id))".to_owned(),
            ],
        },
    ]
}

#[test]
fn fresh_open_applies_all_domains_in_order() {
    let mut eng = SimEngine::new();
    let mut db = Db::open("home", "stable", registry());
    assert_eq!(db.location, "home/0-stable/db.sqlite");
    assert!(db.persisting());
    let dispatched = drive(&mut db, &mut eng);
    assert!(db.ready());
    assert_eq!(dispatched.len(), 5);
    assert!(dispatched[0].contains("kv_store"));
    assert!(dispatched[1].contains("CREATE TABLE workspaces"));
    assert!(dispatched[2].contains("ALTER TABLE workspaces"));
    assert!(dispatched[3].contains("panes"));
    assert!(dispatched[4].contains("items"));
    assert_eq!(eng.committed_sql, dispatched);
    assert_eq!(eng.record_of("kvp"), Some(1));
    assert_eq!(eng.record_of("workspace"), Some(2));
    assert_eq!(eng.record_of("pane"), Some(1));
    assert_eq!(eng.record_of("item"), Some(1));
}

#[test]
fn second_initialization_is_idempotent() {
    let mut eng = SimEngine::new();
    let mut first = Db::open("home", "stable", registry());
    drive(&mut first, &mut eng);
    assert!(first.ready());
    let records_after_first = eng.records.clone();
    let sql_after_first = eng.committed_sql.clone();

    let mut second = Db::open("home", "stable", registry());
    let dispatched = drive(&mut second, &mut eng);
    assert!(second.ready());
    assert_eq!(dispatched.len(), 0);
    assert_eq!(eng.records, records_after_first);
    assert_eq!(eng.committed_sql, sql_after_first);
}

#[test]
fn partially_applied_domain_resumes_after_recorded_step() {
    let mut eng = SimEngine::new();
    eng.set_record("kvp".to_owned(), 1);
    eng.set_record("workspace".to_owned(), 1);
    let mut db = Db::open_in_memory("resume", registry());
    let dispatched = drive(&mut db, &mut eng);
    assert!(db.ready());
    assert_eq!(dispatched.len(), 3);
    assert!(dispatched[0].contains("ALTER TABLE workspaces"));
    assert!(dispatched[1].contains("panes"));
    assert!(dispatched[2].contains("items"));
    assert_eq!(eng.record_of("workspace"), Some(2));
}

#[test]
fn newer_record_is_left_untouched() {
    let mut eng = SimEngine::new();
    eng.set_record("kvp".to_owned(), 7);
    eng.set_record("workspace".to_owned(), 2);
    eng.set_record("pane".to_owned(), 1);
    eng.set_record("item".to_owned(), 1);
    let mut db = Db::open_in_memory("newer", registry());
    let dispatched = drive(&mut db, &mut eng);
    assert!(db.ready());
    assert_eq!(dispatched.len(), 0);
    assert_eq!(eng.record_of("kvp"), Some(7));
}

#[test]
fn failing_script_rolls_back_and_reports_fatal_failure() {
    let mut eng = SimEngine::new();
    eng.fail_on_script =
        Some("CREATE TABLE workspaces (workspace_id INTEGER PRIMARY KEY)".to_owned());
    let mut db = Db::open_in_memory("failing", registry());
    drive(&mut db, &mut eng);
    assert!(db.init_failed());
    assert!(!db.ready());
    assert!(!eng.in_txn);
    assert_eq!(eng.record_of("kvp"), Some(1));
    assert_eq!(eng.record_of("workspace"), None);
    assert_eq!(eng.record_of("pane"), None);
    assert_eq!(eng.committed_sql.len(), 1);
    assert!(eng.committed_sql[0].contains("kv_store"));
}

#[test]
fn failing_save_keeps_record_unchanged() {
    let mut eng = SimEngine::new();
    let mut db = Db::open_in_memory("failsave", registry());
    let mut fuel: u32 = 10_000;
    while !db.ready() && !db.init_failed() {
        assert!(fuel > 0);
        fuel -= 1;
        let action = db.init_action();
        let outcome = match &action {
            Action::SaveRecord(domain, _) if domain == "pane" => Event::Failed,
            other => eng.perform(other),
        };
        db.init_advance(outcome);
    }
    assert!(db.init_failed());
    assert_eq!(eng.record_of("kvp"), Some(1));
    assert_eq!(eng.record_of("workspace"), Some(2));
    assert_eq!(eng.record_of("pane"), None);
    assert_eq!(eng.record_of("item"), None);
}

#[test]
fn empty_registry_initializes_without_reads() {
    let mut eng = SimEngine::new();
    let mut db = Db::open_in_memory("empty", Vec::new());
    let dispatched = drive(&mut db, &mut eng);
    assert!(db.ready());
    assert_eq!(dispatched.len(), 0);
    assert!(eng.records.is_empty());
    assert!(eng.committed_sql.is_empty());
}

#[test]
fn failing_pragma_configuration_is_fatal() {
    let mut db = Db::open_in_memory("badpragma", registry());
    let action = db.init_action();
    assert!(matches!(action, Action::Configure(_)));
    db.init_advance(Event::Failed);
    assert!(db.init_failed());
}
