//! The schema: foreign keys are enforced, and every table is created only
//! where it is absent, so running the migration again changes nothing.
use vstd::prelude::*;
use crate::db;
use crate::error::RepoError;
use crate::sql::{db_error, SqlValue};

verus! {

/// Every table of the schema, entity tables first so that the foreign keys of
/// the later ones name tables that exist.
#[derive(Clone, Copy, PartialEq, Eq, Structural, Debug)]
pub enum SchemaTable {
    Users,
    UserAvailableDays,
    UserInterestingFields,
    Books,
    Tags,
    Documents,
    Tasks,
    BookTags,
    TaskTags,
    DocumentTags,
}

/// The tables the migration creates, in order.
pub open spec fn schema_tables() -> Seq<SchemaTable> {
    seq![
        SchemaTable::Users,
        SchemaTable::UserAvailableDays,
        SchemaTable::UserInterestingFields,
        SchemaTable::Books,
        SchemaTable::Tags,
        SchemaTable::Documents,
        SchemaTable::Tasks,
        SchemaTable::BookTags,
        SchemaTable::TaskTags,
        SchemaTable::DocumentTags,
    ]
}

fn create_table_sql(table: SchemaTable) -> &'static str {
    match table {
        SchemaTable::Users => "CREATE TABLE IF NOT EXISTS users (
            id INTEGER PRIMARY KEY AUTOINCREMENT,
            name TEXT NOT NULL,
            email TEXT NOT NULL UNIQUE,
            status TEXT NOT NULL CHECK (status IN ('active', 'inactive')),
            created_at TEXT DEFAULT CURRENT_TIMESTAMP,
            last_login TEXT DEFAULT CURRENT_TIMESTAMP
        )",
        SchemaTable::UserAvailableDays => "CREATE TABLE IF NOT EXISTS user_available_days (
            id INTEGER PRIMARY KEY AUTOINCREMENT,
            user_id INTEGER NOT NULL,
            day_of_week TEXT NOT NULL,
            FOREIGN KEY (user_id) REFERENCES users(id) ON DELETE CASCADE
        )",
        SchemaTable::UserInterestingFields => "CREATE TABLE IF NOT EXISTS user_interesting_fields (
            id INTEGER PRIMARY KEY AUTOINCREMENT,
            user_id INTEGER NOT NULL,
            field TEXT NOT NULL,
            FOREIGN KEY (user_id) REFERENCES users(id) ON DELETE CASCADE
        )",
        SchemaTable::Books => "CREATE TABLE IF NOT EXISTS books (
            id INTEGER PRIMARY KEY AUTOINCREMENT,
            title TEXT NOT NULL,
            author TEXT,
            file_path TEXT
        )",
        SchemaTable::Tags => "CREATE TABLE IF NOT EXISTS tags (
            id INTEGER PRIMARY KEY AUTOINCREMENT,
            title TEXT NOT NULL,
            color TEXT NOT NULL,
            description TEXT,
            icon TEXT,
            created_at TEXT NOT NULL DEFAULT CURRENT_TIMESTAMP
        )",
        SchemaTable::Documents => "CREATE TABLE IF NOT EXISTS documents (
            id INTEGER PRIMARY KEY AUTOINCREMENT,
            title TEXT NOT NULL,
            original_filename TEXT NOT NULL,
            stored_filename TEXT NOT NULL,
            file_path TEXT NOT NULL,
            file_size INTEGER NOT NULL,
            mime_type TEXT NOT NULL,
            hash TEXT NOT NULL,
            page_count INTEGER NOT NULL,
            created_at TEXT NOT NULL,
            last_accessed TEXT,
            thumbnail_path TEXT
        )",
        SchemaTable::Tasks => "CREATE TABLE IF NOT EXISTS tasks (
            id INTEGER PRIMARY KEY AUTOINCREMENT,
            title TEXT NOT NULL,
            description TEXT,
            status TEXT NOT NULL,
            created_at TEXT NOT NULL,
            due_date TEXT,
            completed_at TEXT,
            document_id INTEGER,
            FOREIGN KEY (document_id) REFERENCES documents(id)
        )",
        SchemaTable::BookTags => "CREATE TABLE IF NOT EXISTS book_tags (
            book_id INTEGER NOT NULL,
            tag_id INTEGER NOT NULL,
            PRIMARY KEY (book_id, tag_id),
            FOREIGN KEY (book_id) REFERENCES books(id) ON DELETE CASCADE,
            FOREIGN KEY (tag_id) REFERENCES tags(id) ON DELETE CASCADE
        )",
        SchemaTable::TaskTags => "CREATE TABLE IF NOT EXISTS task_tags (
            task_id INTEGER NOT NULL,
            tag_id INTEGER NOT NULL,
            PRIMARY KEY (task_id, tag_id),
            FOREIGN KEY (task_id) REFERENCES tasks(id) ON DELETE CASCADE,
            FOREIGN KEY (tag_id) REFERENCES tags(id) ON DELETE CASCADE
        )",
        SchemaTable::DocumentTags => "CREATE TABLE IF NOT EXISTS document_tags (
            document_id INTEGER NOT NULL,
            tag_id INTEGER NOT NULL,
            PRIMARY KEY (document_id, tag_id),
            FOREIGN KEY (document_id) REFERENCES documents(id) ON DELETE CASCADE,
            FOREIGN KEY (tag_id) REFERENCES tags(id) ON DELETE CASCADE
        )",
    }
}

/// One step of the migration.
#[derive(Clone, Copy, PartialEq, Eq, Structural, Debug)]
pub enum SchemaStep {
    /// Turns on foreign-key enforcement for the connection.
    ForeignKeysOn,
    /// Creates a table where it is absent.
    CreateIfAbsent(SchemaTable),
}

/// The migration: foreign keys first, then each table of `schema_tables()`.
pub open spec fn migration_steps() -> Seq<SchemaStep> {
    seq![SchemaStep::ForeignKeysOn] + schema_tables().map_values(|t: SchemaTable| SchemaStep::CreateIfAbsent(t))
}

/// The tables that `steps` create where absent.
pub open spec fn created(steps: Seq<SchemaStep>) -> Set<SchemaTable> {
    Set::new(|t: SchemaTable| steps.contains(SchemaStep::CreateIfAbsent(t)))
}

/// The tables and their rows after `steps`, starting from `db`. Creating a
/// table that exists leaves it and its rows as they are; a new table is empty.
pub open spec fn db_after(db: Map<SchemaTable, Seq<Seq<SqlValue>>>, steps: Seq<SchemaStep>) -> Map<SchemaTable, Seq<Seq<SqlValue>>>
    decreases steps.len(),
{
    if steps.len() == 0 {
        db
    } else {
        let before = db_after(db, steps.drop_last());
        match steps.last() {
            SchemaStep::ForeignKeysOn => before,
            SchemaStep::CreateIfAbsent(t) => if before.contains_key(t) {
                before
            } else {
                before.insert(t, Seq::empty())
            },
        }
    }
}

/// The steps a migration ran, in order.
pub struct MigrationLog {
    ran: Ghost<Seq<SchemaStep>>,
}

impl MigrationLog {
    pub closed spec fn steps(&self) -> Seq<SchemaStep> {
        self.ran@
    }
}

pub fn migration_plan() -> (r: Vec<SchemaStep>)
    ensures
        r@ == migration_steps(),
{
    let r = vec![
        SchemaStep::ForeignKeysOn,
        SchemaStep::CreateIfAbsent(SchemaTable::Users),
        SchemaStep::CreateIfAbsent(SchemaTable::UserAvailableDays),
        SchemaStep::CreateIfAbsent(SchemaTable::UserInterestingFields),
        SchemaStep::CreateIfAbsent(SchemaTable::Books),
        SchemaStep::CreateIfAbsent(SchemaTable::Tags),
        SchemaStep::CreateIfAbsent(SchemaTable::Documents),
        SchemaStep::CreateIfAbsent(SchemaTable::Tasks),
        SchemaStep::CreateIfAbsent(SchemaTable::BookTags),
        SchemaStep::CreateIfAbsent(SchemaTable::TaskTags),
        SchemaStep::CreateIfAbsent(SchemaTable::DocumentTags),
    ];
    assert(r@ =~= migration_steps());
    r
}

fn step_sql(step: SchemaStep) -> &'static str {
    match step {
        SchemaStep::ForeignKeysOn => "PRAGMA foreign_keys = ON",
        SchemaStep::CreateIfAbsent(t) => create_table_sql(t),
    }
}

/// Runs `migration_steps()` in order: foreign-key enforcement is turned on,
/// then each table is created where absent. Safe to run at every start.
pub fn run_migrations(conn: &rusqlite::Connection) -> (r: Result<MigrationLog, RepoError>)
    ensures
        r is Ok ==> r->Ok_0.steps() == migration_steps(),
        r is Err ==> r->Err_0 is DatabaseError,
{
    let plan = migration_plan();
    let mut ran: Ghost<Seq<SchemaStep>> = Ghost(Seq::empty());
    let mut i: usize = 0;
    assert(plan@.subrange(0, 0) =~= Seq::<SchemaStep>::empty());
    while i < plan.len()
        invariant
            i <= plan@.len(),
            ran@ == plan@.subrange(0, i as int),
        decreases plan@.len() - i,
    {
        match db::execute_batch(conn, step_sql(plan[i])) {
            Ok(()) => {},
            Err(e) => { return Err(db_error(&e)); },
        }
        proof {
            assert(plan@.subrange(0, i + 1) =~= plan@.subrange(0, i as int).push(plan@[i as int]));
        }
        ran = Ghost(ran@.push(plan@[i as int]));
        i = i + 1;
    }
    assert(plan@.subrange(0, plan@.len() as int) =~= plan@);
    Ok(MigrationLog { ran })
}

/// A migration keeps every table that was there, rows and all, and adds the
/// tables it creates, empty.
pub proof fn lemma_db_after(db: Map<SchemaTable, Seq<Seq<SqlValue>>>, steps: Seq<SchemaStep>)
    ensures
        db_after(db, steps).dom() == db.dom() + created(steps),
        forall|t: SchemaTable| #[trigger] db.contains_key(t) ==> db_after(db, steps)[t] == db[t],
    decreases steps.len(),
{
    if steps.len() > 0 {
        let rest = steps.drop_last();
        lemma_db_after(db, rest);
        assert(created(steps) =~= match steps.last() {
            SchemaStep::ForeignKeysOn => created(rest),
            SchemaStep::CreateIfAbsent(t) => created(rest).insert(t),
        }) by {
            assert forall|t: SchemaTable| created(steps).contains(t) <==> (match steps.last() {
                SchemaStep::ForeignKeysOn => created(rest),
                SchemaStep::CreateIfAbsent(u) => created(rest).insert(u),
            }).contains(t) by {
                let c = SchemaStep::CreateIfAbsent(t);
                if steps.contains(c) {
                    let k = choose|k: int| 0 <= k < steps.len() && steps[k] == c;
                    if k < steps.len() - 1 {
                        assert(rest[k] == c);
                    }
                }
                if rest.contains(c) {
                    let k = choose|k: int| 0 <= k < rest.len() && rest[k] == c;
                    assert(steps[k] == c);
                }
                if steps.last() == c {
                    assert(steps[steps.len() - 1] == c);
                }
            }
        }
        assert(db_after(db, steps).dom() =~= db.dom() + created(steps));
    } else {
        assert(created(steps) =~= Set::<SchemaTable>::empty());
        assert(db.dom() + created(steps) =~= db.dom());
    }
}

/// Running the migration a second time changes nothing: no table is added,
/// dropped or duplicated, and no row is added, removed or changed.
pub proof fn lemma_migration_idempotent(db: Map<SchemaTable, Seq<Seq<SqlValue>>>)
    ensures
        db_after(db_after(db, migration_steps()), migration_steps()) == db_after(db, migration_steps()),
{
    let once = db_after(db, migration_steps());
    lemma_db_after(db, migration_steps());
    lemma_db_after(once, migration_steps());
    assert(db_after(once, migration_steps()) =~= once);
}

/// After a migration every table of the schema exists.
pub proof fn lemma_migration_creates_all(db: Map<SchemaTable, Seq<Seq<SqlValue>>>, t: SchemaTable)
    ensures
        db_after(db, migration_steps()).contains_key(t),
{
    lemma_db_after(db, migration_steps());
    let k: int = match t {
        SchemaTable::Users => 0,
        SchemaTable::UserAvailableDays => 1,
        SchemaTable::UserInterestingFields => 2,
        SchemaTable::Books => 3,
        SchemaTable::Tags => 4,
        SchemaTable::Documents => 5,
        SchemaTable::Tasks => 6,
        SchemaTable::BookTags => 7,
        SchemaTable::TaskTags => 8,
        SchemaTable::DocumentTags => 9,
    };
    assert(migration_steps()[k + 1] == SchemaStep::CreateIfAbsent(t));
    assert(created(migration_steps()).contains(t));
}

/// The migration turns foreign-key enforcement on before creating any table.
pub proof fn lemma_migration_enables_foreign_keys()
    ensures
        migration_steps()[0] == SchemaStep::ForeignKeysOn,
        forall|i: int| 1 <= i < migration_steps().len() ==> #[trigger] migration_steps()[i] != SchemaStep::ForeignKeysOn,
{
}

} // verus!
