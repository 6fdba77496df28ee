//! Tags: creation, single-column updates, deletion and listing.
use vstd::prelude::*;
use crate::codec::{decode_tag, tag_columns, tag_from, tag_kinds, tag_row, tag_values};
use crate::error::RepoError;
use crate::links::{links, owner_table};
use crate::models::Tag;
use crate::sql::{fetch, row_fits, text_of, text_value, Join, Op, SqlValue, Stmt, Table, TagColumn, Tx};

verus! {

/// The tags that selected rows decode to, in order; fails where a row has
/// NULL in a required column.
pub fn tags_from_rows(rows: Vec<Vec<SqlValue>>) -> (r: Result<Vec<Tag>, RepoError>)
    requires
        forall|i: int| 0 <= i < rows@.len() ==> #[trigger] row_fits(rows@[i]@, tag_kinds()),
    ensures
        r is Ok <==> forall|i: int| 0 <= i < rows@.len() ==> (#[trigger] tag_from(rows@[i]@)) is Some,
        r is Ok ==> r->Ok_0@.len() == rows@.len() && forall|i: int|
            0 <= i < rows@.len() ==> tag_from(rows@[i]@) == Some(#[trigger] r->Ok_0@[i]),
        r is Err ==> r->Err_0 is DatabaseError,
{
    let ghost all = rows@;
    let mut rest = rows;
    let mut out: Vec<Tag> = Vec::new();
    while rest.len() > 0
        invariant
            all == rows@,
            out@.len() + rest@.len() == all.len(),
            rest@ == all.subrange(out@.len() as int, all.len() as int),
            forall|i: int| 0 <= i < all.len() ==> #[trigger] row_fits(all[i]@, tag_kinds()),
            forall|i: int| 0 <= i < out@.len() ==> tag_from(all[i]@) == Some(#[trigger] out@[i]),
        decreases rest@.len(),
    {
        let row = rest.remove(0);
        let ghost k = out@.len() as int;
        assert(row@ == all[k]@);
        assert(row_fits(all[k]@, tag_kinds()));
        assert(tag_kinds().len() == 6);
        match decode_tag(row) {
            Some(tag) => out.push(tag),
            None => {
                assert(tag_from(all[k]@) is None);
                return Err(RepoError::DatabaseError("a stored tag has no title or color".to_string()));
            },
        }
    }
    assert forall|i: int| 0 <= i < all.len() implies (#[trigger] tag_from(all[i]@)) is Some by {
        assert(tag_from(all[i]@) == Some(out@[i]));
    }
    Ok(out)
}

/// The tag that the rows selected for `id` hold: none where there is no
/// row, else the first row decoded, which must carry `id`.
pub fn tag_of_rows(rows: Vec<Vec<SqlValue>>, id: i32) -> (r: Result<Option<Tag>, RepoError>)
    requires
        forall|i: int| 0 <= i < rows@.len() ==> #[trigger] row_fits(rows@[i]@, tag_kinds()),
    ensures
        rows@.len() == 0 ==> r == Ok::<Option<Tag>, RepoError>(None),
        rows@.len() > 0 && tag_from(rows@[0]@) is None ==> r is Err && r->Err_0 is DatabaseError,
        rows@.len() > 0 && tag_from(rows@[0]@) is Some ==> if tag_from(rows@[0]@)->Some_0.id == Some(id as i64) {
            r == Ok::<Option<Tag>, RepoError>(tag_from(rows@[0]@))
        } else {
            r is Err && r->Err_0 is UnexpectedError
        },
{
    let mut rows = rows;
    if rows.len() == 0 {
        return Ok(None);
    }
    let row = rows.remove(0);
    assert(row_fits(row@, tag_kinds()));
    assert(tag_kinds().len() == 6);
    match decode_tag(row) {
        Some(tag) => if tag.id == Some(id as i64) {
            Ok(Some(tag))
        } else {
            Err(RepoError::UnexpectedError("the tag read back has another id".to_string()))
        },
        None => Err(RepoError::DatabaseError("a stored tag has no title or color".to_string())),
    }
}

/// `after` is `before` and one more write, which sets a text column of a tag.
pub open spec fn text_set(before: Seq<Op>, after: Seq<Op>, id: i64, column: TagColumn, text: Seq<char>) -> bool {
    &&& after.len() == before.len() + 1
    &&& after.drop_last() == before
    &&& match after.last() {
        Op::SetTagColumn(i, c, SqlValue::Text(t)) => i == id && c == column && t@ == text,
        _ => false,
    }
}

/// After a tag is deleted no book, task or document is linked to it.
pub proof fn lemma_tag_delete_unlinks(h: Seq<Op>, id: i64, join: Join, owner: i64)
    ensures
        !links(h.push(Op::Delete(Table::Tags, id)), join, owner).contains(id),
{
    assert(h.push(Op::Delete(Table::Tags, id)).drop_last() =~= h);
    assert(owner_table(join) != Table::Tags);
}

/// The writes that change the given fields of tag `id`, in the order title,
/// color, icon.
pub open spec fn tag_update_ops(id: i64, title: Option<String>, color: Option<String>, icon: Option<Option<String>>) -> Seq<Op> {
    set_text_ops(id, TagColumn::Title, title) + set_text_ops(id, TagColumn::Color, color) + match icon {
        Some(i) => seq![Op::SetTagColumn(id, TagColumn::Icon, text_of(i))],
        None => Seq::empty(),
    }
}

/// The write that sets a text column of tag `id`, where a value is given.
pub open spec fn set_text_ops(id: i64, column: TagColumn, value: Option<String>) -> Seq<Op> {
    match value {
        Some(t) => seq![Op::SetTagColumn(id, column, SqlValue::Text(t))],
        None => Seq::empty(),
    }
}

pub struct TagRepository<'a> {
    conn: &'a mut rusqlite::Connection,
    history: Ghost<Seq<Op>>,
}

impl<'a> TagRepository<'a> {
    /// The writes this repository has committed, in order.
    pub closed spec fn history(&self) -> Seq<Op> {
        self.history@
    }

    pub fn new(conn: &'a mut rusqlite::Connection) -> (r: Self)
        ensures
            r.history() == Seq::<Op>::empty(),
    {
        TagRepository { conn, history: Ghost(Seq::empty()) }
    }

    /// Runs one write in its own transaction.
    fn write(&mut self, s: Stmt) -> (r: Result<usize, RepoError>)
        ensures
            r is Ok ==> final(self).history() == old(self).history().push(s@),
            r is Err ==> final(self).history() == old(self).history() && r->Err_0 is DatabaseError,
    {
        let ghost op = s@;
        let mut tx = Tx::begin(self.conn)?;
        let n = tx.run(s)?;
        let ghost ran = tx.ran();
        tx.commit()?;
        self.history = Ghost(self.history@ + ran);
        assert(ran =~= seq![op]);
        Ok(n)
    }

    /// Stores a tag (its id and creation time are ignored) and returns the
    /// new id.
    pub fn create_tag(&mut self, tag: &Tag) -> (r: Result<i64, RepoError>)
        ensures
            r is Ok ==> final(self).history() == old(self).history().push(Op::Insert(Table::Tags, tag_row(*tag))),
            r is Err ==> final(self).history() == old(self).history() && r->Err_0 is DatabaseError,
    {
        let mut tx = Tx::begin(self.conn)?;
        tx.run(Stmt::Insert { table: Table::Tags, values: tag_values(tag) })?;
        let id = tx.last_insert_id();
        let ghost ran = tx.ran();
        tx.commit()?;
        self.history = Ghost(self.history@ + ran);
        assert(ran =~= seq![Op::Insert(Table::Tags, tag_row(*tag))]);
        Ok(id)
    }

    /// Changes the given fields of one tag in one transaction. Where a write
    /// finds no tag with this id the call is refused as invalid input and
    /// nothing is kept.
    pub fn update_fields(&mut self, id: i32, title: Option<String>, color: Option<String>, icon: Option<Option<String>>) -> (r: Result<(), RepoError>)
        ensures
            r is Ok ==> final(self).history() == old(self).history() + tag_update_ops(id as i64, title, color, icon),
            r is Err ==> final(self).history() == old(self).history() && (r->Err_0 is DatabaseError || r->Err_0 is InvalidInput),
    {
        let ghost ops = tag_update_ops(id as i64, title, color, icon);
        let ghost t_ops = set_text_ops(id as i64, TagColumn::Title, title);
        let ghost c_ops = set_text_ops(id as i64, TagColumn::Color, color);
        let mut tx = Tx::begin(self.conn)?;
        match title {
            Some(t) => {
                let n = tx.run(Stmt::SetTagColumn { id: id as i64, column: TagColumn::Title, value: SqlValue::Text(t) })?;
                if n == 0 {
                    return Err(RepoError::InvalidInput("tag not found".to_string()));
                }
            },
            None => {},
        }
        assert(tx.ran() =~= t_ops);
        match color {
            Some(c) => {
                let n = tx.run(Stmt::SetTagColumn { id: id as i64, column: TagColumn::Color, value: SqlValue::Text(c) })?;
                if n == 0 {
                    return Err(RepoError::InvalidInput("tag not found".to_string()));
                }
            },
            None => {},
        }
        assert(tx.ran() =~= t_ops + c_ops);
        match icon {
            Some(i) => {
                let n = tx.run(Stmt::SetTagColumn { id: id as i64, column: TagColumn::Icon, value: text_value(i) })?;
                if n == 0 {
                    return Err(RepoError::InvalidInput("tag not found".to_string()));
                }
            },
            None => {},
        }
        assert(tx.ran() =~= ops);
        let ghost ran = tx.ran();
        tx.commit()?;
        self.history = Ghost(self.history@ + ran);
        Ok(())
    }

    /// Changes the title of one tag; returns the number of rows changed.
    pub fn update_title(&mut self, id: i32, new_title: &str) -> (r: Result<usize, RepoError>)
        ensures
            r is Ok ==> text_set(old(self).history(), final(self).history(), id as i64, TagColumn::Title, new_title@),
            r is Err ==> final(self).history() == old(self).history() && r->Err_0 is DatabaseError,
    {
        let title = new_title.to_owned();
        let r = self.write(Stmt::SetTagColumn { id: id as i64, column: TagColumn::Title, value: SqlValue::Text(title) });
        proof {
            if r is Ok {
                assert(self.history().drop_last() =~= old(self).history());
            }
        }
        r
    }

    /// Changes the color of one tag; returns the number of rows changed.
    pub fn update_color(&mut self, id: i32, new_color: &str) -> (r: Result<usize, RepoError>)
        ensures
            r is Ok ==> text_set(old(self).history(), final(self).history(), id as i64, TagColumn::Color, new_color@),
            r is Err ==> final(self).history() == old(self).history() && r->Err_0 is DatabaseError,
    {
        let color = new_color.to_owned();
        let r = self.write(Stmt::SetTagColumn { id: id as i64, column: TagColumn::Color, value: SqlValue::Text(color) });
        proof {
            if r is Ok {
                assert(self.history().drop_last() =~= old(self).history());
            }
        }
        r
    }

    /// Sets or clears the icon of one tag; returns the number of rows changed.
    pub fn update_icon(&mut self, id: i32, new_icon: Option<String>) -> (r: Result<usize, RepoError>)
        ensures
            r is Ok ==> final(self).history() == old(self).history().push(Op::SetTagColumn(id as i64, TagColumn::Icon, text_of(new_icon))),
            r is Err ==> final(self).history() == old(self).history() && r->Err_0 is DatabaseError,
    {
        self.write(Stmt::SetTagColumn { id: id as i64, column: TagColumn::Icon, value: text_value(new_icon) })
    }

    /// Deletes one tag; its links to books, tasks and documents go with it.
    pub fn delete_tag(&mut self, id: i32) -> (r: Result<usize, RepoError>)
        ensures
            r is Ok ==> final(self).history() == old(self).history().push(Op::Delete(Table::Tags, id as i64)),
            r is Err ==> final(self).history() == old(self).history() && r->Err_0 is DatabaseError,
    {
        self.write(Stmt::Delete { table: Table::Tags, id: id as i64 })
    }

    /// The tag with this id; `None` where there is none.
    pub fn get_tag_by_id(&self, id: i32) -> (r: Result<Option<Tag>, RepoError>)
        ensures
            r is Ok && r->Ok_0 is Some ==> r->Ok_0->Some_0.id == Some(id as i64),
            r is Err ==> !(r->Err_0 is InvalidInput),
    {
        let kinds = tag_columns();
        let rows = fetch(
            self.conn,
            "SELECT id, title, color, description, icon, created_at FROM tags WHERE id = ?1",
            vec![SqlValue::Integer(id as i64)],
            &kinds,
        )?;
        tag_of_rows(rows, id)
    }

    pub fn get_all_tags(&self) -> (r: Result<Vec<Tag>, RepoError>)
        ensures
            r is Err ==> !(r->Err_0 is InvalidInput),
    {
        let rows = fetch(self.conn, "SELECT id, title, color, description, icon, created_at FROM tags", Vec::new(), &tag_columns())?;
        tags_from_rows(rows)
    }
}

} // verus!
