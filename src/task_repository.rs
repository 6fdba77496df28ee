//! Tasks and their tags.
use vstd::prelude::*;
use crate::codec::{decode_task, tag_columns, task_columns, task_from, task_kinds, task_row, task_values};
use crate::error::RepoError;
use crate::links::{delete_owner_ops, lemma_delete_clears, lemma_relink_exact, link_all, link_ops, links, relink_ops, tag_ids};
use crate::models::{Tag, Task};
use crate::sql::{fetch, row_fits, Join, Op, SqlValue, Stmt, Table, Tx};
use crate::tag_repository::tags_from_rows;

verus! {

/// The writes that store a new task under `id`: its row, then a link to each
/// of its stored tags.
pub open spec fn create_task_ops(t: Task, id: i64) -> Seq<Op> {
    seq![Op::Insert(Table::Tasks, task_row(t))] + link_ops(Join::TaskTags, id, t.tags@)
}

/// The writes that replace a task: its row, then its whole set of links.
pub open spec fn update_task_ops(t: Task) -> Seq<Op> {
    seq![Op::Update(Table::Tasks, t.id as i64, task_row(t))] + relink_ops(Join::TaskTags, t.id as i64, t.tags@)
}

/// After a task is updated it is linked to exactly the stored tags it was
/// given, whatever links it had before.
pub proof fn lemma_task_update_replaces_links(h: Seq<Op>, t: Task)
    ensures
        links(h + update_task_ops(t), Join::TaskTags, t.id as i64) == tag_ids(t.tags@),
{
    let h1 = h.push(Op::Update(Table::Tasks, t.id as i64, task_row(t)));
    assert(h + update_task_ops(t) =~= h1 + relink_ops(Join::TaskTags, t.id as i64, t.tags@));
    lemma_relink_exact(h1, Join::TaskTags, t.id as i64, t.tags@);
}

/// After a task is deleted it has no tags left.
pub proof fn lemma_task_delete_clears_links(h: Seq<Op>, id: i32)
    ensures
        links(h + delete_owner_ops(Join::TaskTags, id as i64), Join::TaskTags, id as i64) == Set::<i64>::empty(),
{
    lemma_delete_clears(h, Join::TaskTags, id as i64);
}

/// The task that the rows selected for `id` hold, with `tags`: none where
/// there is no row, else the first row decoded, which must carry `id`.
pub fn task_of_rows(rows: Vec<Vec<SqlValue>>, id: i32, tags: Vec<Tag>) -> (r: Result<Option<Task>, RepoError>)
    requires
        forall|i: int| 0 <= i < rows@.len() ==> #[trigger] row_fits(rows@[i]@, task_kinds()),
    ensures
        rows@.len() == 0 ==> r == Ok::<Option<Task>, RepoError>(None),
        rows@.len() > 0 && task_from(rows@[0]@, tags) is None ==> r is Err && r->Err_0 is DatabaseError,
        rows@.len() > 0 && task_from(rows@[0]@, tags) is Some ==> if task_from(rows@[0]@, tags)->Some_0.id == id {
            r == Ok::<Option<Task>, RepoError>(task_from(rows@[0]@, tags))
        } else {
            r is Err && r->Err_0 is UnexpectedError
        },
{
    let mut rows = rows;
    if rows.len() == 0 {
        return Ok(None);
    }
    let row = rows.remove(0);
    assert(row_fits(row@, task_kinds()));
    assert(task_kinds().len() == 8);
    match decode_task(row, tags) {
        Some(task) => if task.id == id {
            Ok(Some(task))
        } else {
            Err(RepoError::UnexpectedError("the task read back has another id".to_string()))
        },
        None => Err(RepoError::DatabaseError("a stored task lacks a required column".to_string())),
    }
}

/// One task per row, in order, each decoded from its row with no tags yet.
pub fn tasks_from_rows(rows: Vec<Vec<SqlValue>>) -> (r: Result<Vec<Task>, RepoError>)
    requires
        forall|i: int| 0 <= i < rows@.len() ==> #[trigger] row_fits(rows@[i]@, task_kinds()),
    ensures
        r is Ok ==> r->Ok_0@.len() == rows@.len() && forall|i: int| 0 <= i < rows@.len() ==>
            task_from(rows@[i]@, (#[trigger] r->Ok_0@[i]).tags) == Some(r->Ok_0@[i]) && r->Ok_0@[i].tags@.len() == 0,
        r is Err ==> r->Err_0 is DatabaseError && exists|i: int, t: Vec<Tag>|
            0 <= i < rows@.len() && t@.len() == 0 && (#[trigger] task_from(rows@[i]@, t)) is None,
{
    let ghost all = rows@;
    let mut rest = rows;
    let mut out: Vec<Task> = Vec::new();
    while rest.len() > 0
        invariant
            all == rows@,
            out@.len() + rest@.len() == all.len(),
            rest@ == all.subrange(out@.len() as int, all.len() as int),
            forall|i: int| 0 <= i < all.len() ==> #[trigger] row_fits(all[i]@, task_kinds()),
            forall|i: int| 0 <= i < out@.len() ==> task_from(all[i]@, (#[trigger] out@[i]).tags) == Some(out@[i]) && out@[i].tags@.len() == 0,
        decreases rest@.len(),
    {
        let row = rest.remove(0);
        let ghost k = out@.len() as int;
        assert(row@ == all[k]@);
        assert(row_fits(all[k]@, task_kinds()));
        assert(task_kinds().len() == 8);
        let none: Vec<Tag> = Vec::new();
        let ghost empty = none;
        match decode_task(row, none) {
            Some(task) => out.push(task),
            None => {
                assert(task_from(all[k]@, empty) is None);
                return Err(RepoError::DatabaseError("a stored task lacks a required column".to_string()));
            },
        }
    }
    Ok(out)
}

pub struct TaskRepository {
    conn: rusqlite::Connection,
    history: Ghost<Seq<Op>>,
}

impl TaskRepository {
    /// The writes this repository has committed, in order.
    pub closed spec fn history(&self) -> Seq<Op> {
        self.history@
    }

    pub fn new(conn: rusqlite::Connection) -> (r: Self)
        ensures
            r.history() == Seq::<Op>::empty(),
    {
        TaskRepository { conn, history: Ghost(Seq::empty()) }
    }

    /// Stores a task (its id is ignored) and links it to its stored tags, in
    /// one transaction; returns the new id. On failure nothing is kept.
    pub fn create(&mut self, task: &Task) -> (r: Result<i64, RepoError>)
        ensures
            r is Ok ==> final(self).history() == old(self).history() + create_task_ops(*task, r->Ok_0),
            r is Err ==> final(self).history() == old(self).history() && r->Err_0 is DatabaseError,
    {
        let mut tx = Tx::begin(&mut self.conn)?;
        tx.run(Stmt::Insert { table: Table::Tasks, values: task_values(task) })?;
        let task_id = tx.last_insert_id();
        link_all(&mut tx, Join::TaskTags, task_id, &task.tags)?;
        let ghost ran = tx.ran();
        tx.commit()?;
        self.history = Ghost(self.history@ + ran);
        assert(ran =~= create_task_ops(*task, task_id));
        Ok(task_id)
    }

    /// The task with this id, with its tags; `None` where there is none.
    pub fn get_by_id(&self, id: i32) -> (r: Result<Option<Task>, RepoError>)
        ensures
            r is Ok && r->Ok_0 is Some ==> r->Ok_0->Some_0.id == id,
            r is Err ==> !(r->Err_0 is InvalidInput),
    {
        let kinds = task_columns();
        let rows = fetch(
            &self.conn,
            "SELECT id, title, description, status, created_at, due_date, completed_at, document_id FROM tasks WHERE id = ?1",
            vec![SqlValue::Integer(id as i64)],
            &kinds,
        )?;
        if rows.len() == 0 {
            return task_of_rows(rows, id, Vec::new());
        }
        let tags = self.tags_of(id as i64)?;
        task_of_rows(rows, id, tags)
    }

    /// Replaces the row of the task with `task.id` and its whole set of
    /// links, in one transaction. An id with no row is refused as invalid
    /// input and nothing is kept.
    pub fn update(&mut self, task: &Task) -> (r: Result<(), RepoError>)
        ensures
            r is Ok ==> final(self).history() == old(self).history() + update_task_ops(*task),
            r is Err ==> final(self).history() == old(self).history() && (r->Err_0 is DatabaseError || r->Err_0 is InvalidInput),
    {
        let id = task.id as i64;
        let mut tx = Tx::begin(&mut self.conn)?;
        let n = tx.run(Stmt::Update { table: Table::Tasks, id, values: task_values(task) })?;
        if n == 0 {
            return Err(RepoError::InvalidInput("task not found".to_string()));
        }
        tx.run(Stmt::UnlinkAll { join: Join::TaskTags, owner: id })?;
        link_all(&mut tx, Join::TaskTags, id, &task.tags)?;
        let ghost ran = tx.ran();
        tx.commit()?;
        self.history = Ghost(self.history@ + ran);
        assert(ran =~= update_task_ops(*task));
        Ok(())
    }

    /// Deletes a task and its links in one transaction. An id with no task is
    /// refused as invalid input.
    pub fn delete(&mut self, id: i32) -> (r: Result<(), RepoError>)
        ensures
            r is Ok ==> final(self).history() == old(self).history() + delete_owner_ops(Join::TaskTags, id as i64),
            r is Err ==> final(self).history() == old(self).history() && (r->Err_0 is DatabaseError || r->Err_0 is InvalidInput),
    {
        let mut tx = Tx::begin(&mut self.conn)?;
        tx.run(Stmt::UnlinkAll { join: Join::TaskTags, owner: id as i64 })?;
        let n = tx.run(Stmt::Delete { table: Table::Tasks, id: id as i64 })?;
        if n == 0 {
            return Err(RepoError::InvalidInput("task not found".to_string()));
        }
        let ghost ran = tx.ran();
        tx.commit()?;
        self.history = Ghost(self.history@ + ran);
        assert(ran =~= delete_owner_ops(Join::TaskTags, id as i64));
        Ok(())
    }

    /// Every task, each with its tags.
    pub fn get_all(&self) -> (r: Result<Vec<Task>, RepoError>)
        ensures
            r is Err ==> !(r->Err_0 is InvalidInput),
    {
        let kinds = task_columns();
        let rows = fetch(
            &self.conn,
            "SELECT id, title, description, status, created_at, due_date, completed_at, document_id FROM tasks",
            Vec::new(),
            &kinds,
        )?;
        let tasks = tasks_from_rows(rows)?;
        self.with_tags(tasks)
    }

    /// The same tasks, in order, each with the tags linked to it; every other
    /// field is kept.
    pub fn with_tags(&self, tasks: Vec<Task>) -> (r: Result<Vec<Task>, RepoError>)
        ensures
            r is Ok ==> r->Ok_0@.len() == tasks@.len() && forall|i: int| 0 <= i < tasks@.len() ==>
                (#[trigger] r->Ok_0@[i]) == (Task { tags: r->Ok_0@[i].tags, ..tasks@[i] }),
            r is Err ==> !(r->Err_0 is InvalidInput),
    {
        let ghost all = tasks@;
        let mut rest = tasks;
        let mut out: Vec<Task> = Vec::new();
        while rest.len() > 0
            invariant
                all == tasks@,
                out@.len() + rest@.len() == all.len(),
                rest@ == all.subrange(out@.len() as int, all.len() as int),
                forall|i: int| 0 <= i < out@.len() ==> (#[trigger] out@[i]) == (Task { tags: out@[i].tags, ..all[i] }),
            decreases rest@.len(),
        {
            let task = rest.remove(0);
            let tags = self.tags_of(task.id as i64)?;
            out.push(Task { tags, ..task });
        }
        Ok(out)
    }

    /// The tags linked to a task.
    fn tags_of(&self, task_id: i64) -> (r: Result<Vec<Tag>, RepoError>)
        ensures
            r is Err ==> !(r->Err_0 is InvalidInput),
    {
        let rows = fetch(
            &self.conn,
            "SELECT t.id, t.title, t.color, t.description, t.icon, t.created_at FROM tags t JOIN task_tags tt ON tt.tag_id = t.id WHERE tt.task_id = ?1",
            vec![SqlValue::Integer(task_id)],
            &tag_columns(),
        )?;
        tags_from_rows(rows)
    }
}

} // verus!
