//! Values, statements and transactions as the repositories see them.
//!
//! Every write is described by a `Stmt`, whose view `Op` is what the
//! contracts speak of. A `Tx` keeps, as ghost state, the writes it has run;
//! its owner adds them to its history only once the transaction commits.
use vstd::prelude::*;
use crate::db;
use crate::error::RepoError;

verus! {

/// A value bound to a statement parameter or read from a column.
#[derive(Debug)]
pub enum SqlValue {
    Null,
    Integer(i64),
    Text(String),
}

/// The column kinds that the schema uses.
#[derive(Clone, Copy, PartialEq, Eq, Structural, Debug)]
pub enum Kind {
    Int,
    Text,
}

/// The entity tables.
#[derive(Clone, Copy, PartialEq, Eq, Structural, Debug)]
pub enum Table {
    Users,
    UserAvailableDays,
    UserInterestingFields,
    Books,
    Tags,
    Tasks,
    Documents,
}

/// The tables that link an owner (book, task or document) to a tag.
#[derive(Clone, Copy, PartialEq, Eq, Structural, Debug)]
pub enum Join {
    BookTags,
    TaskTags,
    DocumentTags,
}

/// The tag columns that can be changed one at a time.
#[derive(Clone, Copy, PartialEq, Eq, Structural, Debug)]
pub enum TagColumn {
    Title,
    Color,
    Icon,
}

/// A write, as the contracts see it.
pub enum Op {
    /// A new row; its id is chosen by the database.
    Insert(Table, Seq<SqlValue>),
    /// Every data column of the row with this id replaced.
    Update(Table, i64, Seq<SqlValue>),
    /// One column of a tag replaced.
    SetTagColumn(i64, TagColumn, SqlValue),
    /// The row with this id removed.
    Delete(Table, i64),
    /// A link from an owner to a tag added.
    Link(Join, i64, i64),
    /// A link from an owner to a tag removed.
    Unlink(Join, i64, i64),
    /// Every link of an owner removed.
    UnlinkAll(Join, i64),
}

/// A write, ready to run.
pub enum Stmt {
    Insert { table: Table, values: Vec<SqlValue> },
    Update { table: Table, id: i64, values: Vec<SqlValue> },
    SetTagColumn { id: i64, column: TagColumn, value: SqlValue },
    Delete { table: Table, id: i64 },
    Link { join: Join, owner: i64, tag: i64 },
    Unlink { join: Join, owner: i64, tag: i64 },
    UnlinkAll { join: Join, owner: i64 },
}

impl View for Stmt {
    type V = Op;

    open spec fn view(&self) -> Op {
        match self {
            Stmt::Insert { table, values } => Op::Insert(*table, values@),
            Stmt::Update { table, id, values } => Op::Update(*table, *id, values@),
            Stmt::SetTagColumn { id, column, value } => Op::SetTagColumn(*id, *column, *value),
            Stmt::Delete { table, id } => Op::Delete(*table, *id),
            Stmt::Link { join, owner, tag } => Op::Link(*join, *owner, *tag),
            Stmt::Unlink { join, owner, tag } => Op::Unlink(*join, *owner, *tag),
            Stmt::UnlinkAll { join, owner } => Op::UnlinkAll(*join, *owner),
        }
    }
}

pub open spec fn text_of(s: Option<String>) -> SqlValue {
    match s {
        Some(t) => SqlValue::Text(t),
        None => SqlValue::Null,
    }
}

pub open spec fn int_of(v: Option<i64>) -> SqlValue {
    match v {
        Some(i) => SqlValue::Integer(i),
        None => SqlValue::Null,
    }
}

pub fn text_value(s: Option<String>) -> (r: SqlValue)
    ensures
        r == text_of(s),
{
    match s {
        Some(t) => SqlValue::Text(t),
        None => SqlValue::Null,
    }
}

pub fn int_value(v: Option<i64>) -> (r: SqlValue)
    ensures
        r == int_of(v),
{
    match v {
        Some(i) => SqlValue::Integer(i),
        None => SqlValue::Null,
    }
}

pub open spec fn fits(v: SqlValue, k: Kind) -> bool {
    match v {
        SqlValue::Null => true,
        SqlValue::Integer(_) => k == Kind::Int,
        SqlValue::Text(_) => k == Kind::Text,
    }
}

/// A row read back has one value per selected column, of that column's kind.
pub open spec fn row_fits(row: Seq<SqlValue>, kinds: Seq<Kind>) -> bool {
    &&& row.len() == kinds.len()
    &&& forall|i: int| 0 <= i < row.len() ==> #[trigger] fits(row[i], kinds[i])
}

pub fn db_error(e: &rusqlite::Error) -> (r: RepoError)
    ensures
        r is DatabaseError,
{
    RepoError::DatabaseError(db::error_message(e))
}

fn insert_sql(table: Table) -> &'static str {
    match table {
        Table::Users => "INSERT INTO users (name, email, status, created_at, last_login) VALUES (?1, ?2, ?3, CURRENT_TIMESTAMP, CURRENT_TIMESTAMP)",
        Table::UserAvailableDays => "INSERT INTO user_available_days (user_id, day_of_week) VALUES (?1, ?2)",
        Table::UserInterestingFields => "INSERT INTO user_interesting_fields (user_id, field) VALUES (?1, ?2)",
        Table::Books => "INSERT INTO books (title, author, file_path) VALUES (?1, ?2, ?3)",
        Table::Tags => "INSERT INTO tags (title, color, description, icon) VALUES (?1, ?2, ?3, ?4)",
        Table::Tasks => "INSERT INTO tasks (title, description, status, created_at, due_date, completed_at, document_id) VALUES (?1, ?2, ?3, ?4, ?5, ?6, ?7)",
        Table::Documents => "INSERT INTO documents (title, original_filename, stored_filename, file_path, file_size, mime_type, hash, page_count, created_at, last_accessed, thumbnail_path) VALUES (?1, ?2, ?3, ?4, ?5, ?6, ?7, ?8, ?9, ?10, ?11)",
    }
}

fn update_sql(table: Table) -> &'static str {
    match table {
        Table::Users => "UPDATE users SET name = ?1, email = ?2, status = ?3 WHERE id = ?4",
        Table::UserAvailableDays => "UPDATE user_available_days SET user_id = ?1, day_of_week = ?2 WHERE id = ?3",
        Table::UserInterestingFields => "UPDATE user_interesting_fields SET user_id = ?1, field = ?2 WHERE id = ?3",
        Table::Books => "UPDATE books SET title = ?1, author = ?2, file_path = ?3 WHERE id = ?4",
        Table::Tags => "UPDATE tags SET title = ?1, color = ?2, description = ?3, icon = ?4 WHERE id = ?5",
        Table::Tasks => "UPDATE tasks SET title = ?1, description = ?2, status = ?3, created_at = ?4, due_date = ?5, completed_at = ?6, document_id = ?7 WHERE id = ?8",
        Table::Documents => "UPDATE documents SET title = ?1, original_filename = ?2, stored_filename = ?3, file_path = ?4, file_size = ?5, mime_type = ?6, hash = ?7, page_count = ?8, created_at = ?9, last_accessed = ?10, thumbnail_path = ?11 WHERE id = ?12",
    }
}

fn delete_sql(table: Table) -> &'static str {
    match table {
        Table::Users => "DELETE FROM users WHERE id = ?1",
        Table::UserAvailableDays => "DELETE FROM user_available_days WHERE id = ?1",
        Table::UserInterestingFields => "DELETE FROM user_interesting_fields WHERE id = ?1",
        Table::Books => "DELETE FROM books WHERE id = ?1",
        Table::Tags => "DELETE FROM tags WHERE id = ?1",
        Table::Tasks => "DELETE FROM tasks WHERE id = ?1",
        Table::Documents => "DELETE FROM documents WHERE id = ?1",
    }
}

fn set_tag_column_sql(column: TagColumn) -> &'static str {
    match column {
        TagColumn::Title => "UPDATE tags SET title = ?1 WHERE id = ?2",
        TagColumn::Color => "UPDATE tags SET color = ?1 WHERE id = ?2",
        TagColumn::Icon => "UPDATE tags SET icon = ?1 WHERE id = ?2",
    }
}

fn link_sql(join: Join) -> &'static str {
    match join {
        Join::BookTags => "INSERT INTO book_tags (book_id, tag_id) VALUES (?1, ?2)",
        Join::TaskTags => "INSERT INTO task_tags (task_id, tag_id) VALUES (?1, ?2)",
        Join::DocumentTags => "INSERT INTO document_tags (document_id, tag_id) VALUES (?1, ?2)",
    }
}

fn unlink_sql(join: Join) -> &'static str {
    match join {
        Join::BookTags => "DELETE FROM book_tags WHERE book_id = ?1 AND tag_id = ?2",
        Join::TaskTags => "DELETE FROM task_tags WHERE task_id = ?1 AND tag_id = ?2",
        Join::DocumentTags => "DELETE FROM document_tags WHERE document_id = ?1 AND tag_id = ?2",
    }
}

fn unlink_all_sql(join: Join) -> &'static str {
    match join {
        Join::BookTags => "DELETE FROM book_tags WHERE book_id = ?1",
        Join::TaskTags => "DELETE FROM task_tags WHERE task_id = ?1",
        Join::DocumentTags => "DELETE FROM document_tags WHERE document_id = ?1",
    }
}

/// The SQL text of a write and the values bound to its parameters, in order:
/// the row's values, then the id that selects the row.
pub fn render(s: Stmt) -> (r: (&'static str, Vec<SqlValue>))
    ensures
        match s@ {
            Op::Insert(_, values) => r.1@ == values,
            Op::Update(_, id, values) => r.1@ == values.push(SqlValue::Integer(id)),
            Op::SetTagColumn(id, _, value) => r.1@ == seq![value, SqlValue::Integer(id)],
            Op::Delete(_, id) => r.1@ == seq![SqlValue::Integer(id)],
            Op::Link(_, owner, tag) => r.1@ == seq![SqlValue::Integer(owner), SqlValue::Integer(tag)],
            Op::Unlink(_, owner, tag) => r.1@ == seq![SqlValue::Integer(owner), SqlValue::Integer(tag)],
            Op::UnlinkAll(_, owner) => r.1@ == seq![SqlValue::Integer(owner)],
        },
{
    match s {
        Stmt::Insert { table, values } => (insert_sql(table), values),
        Stmt::Update { table, id, values } => {
            let mut values = values;
            values.push(SqlValue::Integer(id));
            (update_sql(table), values)
        },
        Stmt::SetTagColumn { id, column, value } => (set_tag_column_sql(column), vec![value, SqlValue::Integer(id)]),
        Stmt::Delete { table, id } => (delete_sql(table), vec![SqlValue::Integer(id)]),
        Stmt::Link { join, owner, tag } => (link_sql(join), vec![SqlValue::Integer(owner), SqlValue::Integer(tag)]),
        Stmt::Unlink { join, owner, tag } => (unlink_sql(join), vec![SqlValue::Integer(owner), SqlValue::Integer(tag)]),
        Stmt::UnlinkAll { join, owner } => (unlink_all_sql(join), vec![SqlValue::Integer(owner)]),
    }
}

/// An open transaction and the writes run in it so far. Dropped without a
/// commit, it rolls back.
pub struct Tx<'c> {
    inner: rusqlite::Transaction<'c>,
    ran: Ghost<Seq<Op>>,
}

impl<'c> Tx<'c> {
    /// The writes run in this transaction so far, in order.
    pub closed spec fn ran(&self) -> Seq<Op> {
        self.ran@
    }

    /// Begins a transaction on a connection held exclusively.
    pub fn begin(conn: &'c mut rusqlite::Connection) -> (r: Result<Tx<'c>, RepoError>)
        ensures
            r is Ok ==> r->Ok_0.ran() == Seq::<Op>::empty(),
            r is Err ==> r->Err_0 is DatabaseError,
    {
        match db::begin(conn) {
            Ok(inner) => Ok(Tx { inner, ran: Ghost(Seq::empty()) }),
            Err(e) => Err(db_error(&e)),
        }
    }

    /// Begins a transaction on a shared connection; fails where one is
    /// already open on it.
    pub fn begin_shared(conn: &'c rusqlite::Connection) -> (r: Result<Tx<'c>, RepoError>)
        ensures
            r is Ok ==> r->Ok_0.ran() == Seq::<Op>::empty(),
            r is Err ==> r->Err_0 is DatabaseError,
    {
        match db::begin_shared(conn) {
            Ok(inner) => Ok(Tx { inner, ran: Ghost(Seq::empty()) }),
            Err(e) => Err(db_error(&e)),
        }
    }

    /// Runs one write; on success it joins the writes of this transaction.
    /// Returns the number of rows the write changed.
    pub fn run(&mut self, s: Stmt) -> (r: Result<usize, RepoError>)
        ensures
            r is Ok ==> final(self).ran() == old(self).ran().push(s@),
            r is Err ==> final(self).ran() == old(self).ran() && r->Err_0 is DatabaseError,
    {
        let ghost op = s@;
        let (sql, params) = render(s);
        match db::execute(&self.inner, sql, params) {
            Ok(n) => {
                self.ran = Ghost(self.ran@.push(op));
                Ok(n)
            },
            Err(e) => Err(db_error(&e)),
        }
    }

    /// The id of the row that the last insert on this connection created.
    pub fn last_insert_id(&self) -> i64 {
        db::last_insert_rowid(&self.inner)
    }

    /// Commits every write run so far; on failure none of them stays.
    pub fn commit(self) -> (r: Result<(), RepoError>)
        ensures
            r is Err ==> r->Err_0 is DatabaseError,
    {
        match db::commit(self.inner) {
            Ok(()) => Ok(()),
            Err(e) => Err(db_error(&e)),
        }
    }
}

/// Reads one value per kind from the current row.
fn read_row(row: &rusqlite::Row<'_>, kinds: &Vec<Kind>) -> (r: Result<Vec<SqlValue>, RepoError>)
    ensures
        r is Ok ==> row_fits(r->Ok_0@, kinds@),
        r is Err ==> r->Err_0 is DatabaseError,
{
    let mut out: Vec<SqlValue> = Vec::new();
    let mut i: usize = 0;
    while i < kinds.len()
        invariant
            i <= kinds@.len(),
            out@.len() == i,
            forall|j: int| 0 <= j < i ==> #[trigger] fits(out@[j], kinds@[j]),
        decreases kinds@.len() - i,
    {
        let v = match kinds[i] {
            Kind::Int => match db::column_int(row, i) {
                Ok(x) => int_value(x),
                Err(e) => { return Err(db_error(&e)); },
            },
            Kind::Text => match db::column_text(row, i) {
                Ok(x) => text_value(x),
                Err(e) => { return Err(db_error(&e)); },
            },
        };
        out.push(v);
        i = i + 1;
    }
    Ok(out)
}

/// Runs a query and reads every row it yields, each as one value per kind.
pub fn fetch(conn: &rusqlite::Connection, sql: &str, params: Vec<SqlValue>, kinds: &Vec<Kind>) -> (r: Result<Vec<Vec<SqlValue>>, RepoError>)
    ensures
        r is Ok ==> forall|i: int| 0 <= i < r->Ok_0@.len() ==> #[trigger] row_fits(r->Ok_0@[i]@, kinds@),
        r is Err ==> !(r->Err_0 is InvalidInput),
{
    let mut stmt = match db::prepare(conn, sql) {
        Ok(s) => s,
        Err(e) => { return Err(db_error(&e)); },
    };
    let mut rows = match db::query(&mut stmt, params) {
        Ok(r) => r,
        Err(e) => { return Err(db_error(&e)); },
    };
    let mut out: Vec<Vec<SqlValue>> = Vec::new();
    while out.len() < usize::MAX
        invariant
            forall|i: int| 0 <= i < out@.len() ==> #[trigger] row_fits(out@[i]@, kinds@),
        decreases usize::MAX - out@.len(),
    {
        match db::next_row(&mut rows) {
            Ok(Some(row)) => {
                let values = read_row(row, kinds)?;
                out.push(values);
            },
            Ok(None) => { return Ok(out); },
            Err(e) => { return Err(db_error(&e)); },
        }
    }
    Err(RepoError::UnexpectedError("more rows than a vector can hold".to_string()))
}

} // verus!
