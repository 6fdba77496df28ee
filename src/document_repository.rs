//! Documents and their tags.
use vstd::prelude::*;
use crate::codec::{decode_document, document_columns, document_from, document_kinds, document_row, document_values, tag_columns};
use crate::error::RepoError;
use crate::links::{delete_owner_ops, lemma_relink_exact, link_all, link_ops, links, relink_ops, tag_ids};
use crate::models::{Document, Tag};
use crate::sql::{fetch, row_fits, Join, Op, SqlValue, Stmt, Table, Tx};
use crate::tag_repository::tags_from_rows;

verus! {

/// The writes that store a new document under `id`: its row, then a link to
/// each of its stored tags.
pub open spec fn create_document_ops(d: Document, id: i64) -> Seq<Op> {
    seq![Op::Insert(Table::Documents, document_row(d))] + link_ops(Join::DocumentTags, id, d.tags@)
}

/// The writes that replace a document: its row, then its whole set of links.
pub open spec fn update_document_ops(d: Document) -> Seq<Op> {
    seq![Op::Update(Table::Documents, d.id as i64, document_row(d))] + relink_ops(Join::DocumentTags, d.id as i64, d.tags@)
}

/// After a document is updated it is linked to exactly the stored tags it
/// was given, whatever links it had before.
pub proof fn lemma_document_update_replaces_links(h: Seq<Op>, d: Document)
    ensures
        links(h + update_document_ops(d), Join::DocumentTags, d.id as i64) == tag_ids(d.tags@),
{
    let h1 = h.push(Op::Update(Table::Documents, d.id as i64, document_row(d)));
    assert(h + update_document_ops(d) =~= h1 + relink_ops(Join::DocumentTags, d.id as i64, d.tags@));
    lemma_relink_exact(h1, Join::DocumentTags, d.id as i64, d.tags@);
}

/// The document that the rows selected for `id` hold, with `tags`: none where
/// there is no row, else the first row decoded, which must carry `id`.
pub fn document_of_rows(rows: Vec<Vec<SqlValue>>, id: i32, tags: Vec<Tag>) -> (r: Result<Option<Document>, RepoError>)
    requires
        forall|i: int| 0 <= i < rows@.len() ==> #[trigger] row_fits(rows@[i]@, document_kinds()),
    ensures
        rows@.len() == 0 ==> r == Ok::<Option<Document>, RepoError>(None),
        rows@.len() > 0 && document_from(rows@[0]@, tags) is None ==> r is Err && r->Err_0 is DatabaseError,
        rows@.len() > 0 && document_from(rows@[0]@, tags) is Some ==> if document_from(rows@[0]@, tags)->Some_0.id == id {
            r == Ok::<Option<Document>, RepoError>(document_from(rows@[0]@, tags))
        } else {
            r is Err && r->Err_0 is UnexpectedError
        },
{
    let mut rows = rows;
    if rows.len() == 0 {
        return Ok(None);
    }
    let row = rows.remove(0);
    assert(row_fits(row@, document_kinds()));
    assert(document_kinds().len() == 12);
    match decode_document(row, tags) {
        Some(document) => if document.id == id {
            Ok(Some(document))
        } else {
            Err(RepoError::UnexpectedError("the document read back has another id".to_string()))
        },
        None => Err(RepoError::DatabaseError("a stored document lacks a required column".to_string())),
    }
}

/// One document per row, in order, each decoded from its row with no tags yet.
pub fn documents_from_rows(rows: Vec<Vec<SqlValue>>) -> (r: Result<Vec<Document>, RepoError>)
    requires
        forall|i: int| 0 <= i < rows@.len() ==> #[trigger] row_fits(rows@[i]@, document_kinds()),
    ensures
        r is Ok ==> r->Ok_0@.len() == rows@.len() && forall|i: int| 0 <= i < rows@.len() ==>
            document_from(rows@[i]@, (#[trigger] r->Ok_0@[i]).tags) == Some(r->Ok_0@[i]) && r->Ok_0@[i].tags@.len() == 0,
        r is Err ==> r->Err_0 is DatabaseError && exists|i: int, t: Vec<Tag>|
            0 <= i < rows@.len() && t@.len() == 0 && (#[trigger] document_from(rows@[i]@, t)) is None,
{
    let ghost all = rows@;
    let mut rest = rows;
    let mut out: Vec<Document> = Vec::new();
    while rest.len() > 0
        invariant
            all == rows@,
            out@.len() + rest@.len() == all.len(),
            rest@ == all.subrange(out@.len() as int, all.len() as int),
            forall|i: int| 0 <= i < all.len() ==> #[trigger] row_fits(all[i]@, document_kinds()),
            forall|i: int| 0 <= i < out@.len() ==> document_from(all[i]@, (#[trigger] out@[i]).tags) == Some(out@[i]) && out@[i].tags@.len() == 0,
        decreases rest@.len(),
    {
        let row = rest.remove(0);
        let ghost k = out@.len() as int;
        assert(row@ == all[k]@);
        assert(row_fits(all[k]@, document_kinds()));
        assert(document_kinds().len() == 12);
        let none: Vec<Tag> = Vec::new();
        let ghost empty = none;
        match decode_document(row, none) {
            Some(document) => out.push(document),
            None => {
                assert(document_from(all[k]@, empty) is None);
                return Err(RepoError::DatabaseError("a stored document lacks a required column".to_string()));
            },
        }
    }
    Ok(out)
}

pub struct DocumentRepository<'a> {
    conn: &'a rusqlite::Connection,
    history: Ghost<Seq<Op>>,
}

impl<'a> DocumentRepository<'a> {
    /// The writes this repository has committed, in order.
    pub closed spec fn history(&self) -> Seq<Op> {
        self.history@
    }

    pub fn new(conn: &'a rusqlite::Connection) -> (r: Self)
        ensures
            r.history() == Seq::<Op>::empty(),
    {
        DocumentRepository { conn, history: Ghost(Seq::empty()) }
    }

    /// Stores a document (its id is ignored) and links it to its stored
    /// tags, in one transaction; returns the new id. On failure nothing is kept.
    pub fn create(&mut self, document: &Document) -> (r: Result<i64, RepoError>)
        ensures
            r is Ok ==> final(self).history() == old(self).history() + create_document_ops(*document, r->Ok_0),
            r is Err ==> final(self).history() == old(self).history() && r->Err_0 is DatabaseError,
    {
        let mut tx = Tx::begin_shared(self.conn)?;
        tx.run(Stmt::Insert { table: Table::Documents, values: document_values(document) })?;
        let id = tx.last_insert_id();
        link_all(&mut tx, Join::DocumentTags, id, &document.tags)?;
        let ghost ran = tx.ran();
        tx.commit()?;
        self.history = Ghost(self.history@ + ran);
        assert(ran =~= create_document_ops(*document, id));
        Ok(id)
    }

    /// The document with this id, with its tags; `None` where there is none.
    pub fn get_by_id(&self, id: i32) -> (r: Result<Option<Document>, RepoError>)
        ensures
            r is Ok && r->Ok_0 is Some ==> r->Ok_0->Some_0.id == id,
            r is Err ==> !(r->Err_0 is InvalidInput),
    {
        let kinds = document_columns();
        let rows = fetch(
            self.conn,
            "SELECT id, title, original_filename, stored_filename, file_path, file_size, mime_type, hash, page_count, created_at, last_accessed, thumbnail_path FROM documents WHERE id = ?1",
            vec![SqlValue::Integer(id as i64)],
            &kinds,
        )?;
        if rows.len() == 0 {
            return document_of_rows(rows, id, Vec::new());
        }
        let tags = self.tags_of(id as i64)?;
        document_of_rows(rows, id, tags)
    }

    /// Replaces the row of the document with `document.id` and its whole set
    /// of links, in one transaction.
    pub fn update(&mut self, document: &Document) -> (r: Result<(), RepoError>)
        ensures
            r is Ok ==> final(self).history() == old(self).history() + update_document_ops(*document),
            r is Err ==> final(self).history() == old(self).history() && (r->Err_0 is DatabaseError || r->Err_0 is InvalidInput),
    {
        let id = document.id as i64;
        let mut tx = Tx::begin_shared(self.conn)?;
        let n = tx.run(Stmt::Update { table: Table::Documents, id, values: document_values(document) })?;
        if n == 0 {
            return Err(RepoError::InvalidInput("document not found".to_string()));
        }
        tx.run(Stmt::UnlinkAll { join: Join::DocumentTags, owner: id })?;
        link_all(&mut tx, Join::DocumentTags, id, &document.tags)?;
        let ghost ran = tx.ran();
        tx.commit()?;
        self.history = Ghost(self.history@ + ran);
        assert(ran =~= update_document_ops(*document));
        Ok(())
    }

    /// Deletes a document and its links in one transaction. An id with no
    /// document is refused as invalid input.
    pub fn delete(&mut self, id: i32) -> (r: Result<(), RepoError>)
        ensures
            r is Ok ==> final(self).history() == old(self).history() + delete_owner_ops(Join::DocumentTags, id as i64),
            r is Err ==> final(self).history() == old(self).history() && (r->Err_0 is DatabaseError || r->Err_0 is InvalidInput),
    {
        let mut tx = Tx::begin_shared(self.conn)?;
        tx.run(Stmt::UnlinkAll { join: Join::DocumentTags, owner: id as i64 })?;
        let n = tx.run(Stmt::Delete { table: Table::Documents, id: id as i64 })?;
        if n == 0 {
            return Err(RepoError::InvalidInput("document not found".to_string()));
        }
        let ghost ran = tx.ran();
        tx.commit()?;
        self.history = Ghost(self.history@ + ran);
        assert(ran =~= delete_owner_ops(Join::DocumentTags, id as i64));
        Ok(())
    }

    /// Every document, each with its tags.
    pub fn get_all(&self) -> (r: Result<Vec<Document>, RepoError>)
        ensures
            r is Err ==> !(r->Err_0 is InvalidInput),
    {
        let kinds = document_columns();
        let rows = fetch(
            self.conn,
            "SELECT id, title, original_filename, stored_filename, file_path, file_size, mime_type, hash, page_count, created_at, last_accessed, thumbnail_path FROM documents",
            Vec::new(),
            &kinds,
        )?;
        let documents = documents_from_rows(rows)?;
        self.with_tags(documents)
    }

    /// The same documents, in order, each with the tags linked to it; every other
    /// field is kept.
    pub fn with_tags(&self, documents: Vec<Document>) -> (r: Result<Vec<Document>, RepoError>)
        ensures
            r is Ok ==> r->Ok_0@.len() == documents@.len() && forall|i: int| 0 <= i < documents@.len() ==>
                (#[trigger] r->Ok_0@[i]) == (Document { tags: r->Ok_0@[i].tags, ..documents@[i] }),
            r is Err ==> !(r->Err_0 is InvalidInput),
    {
        let ghost all = documents@;
        let mut rest = documents;
        let mut out: Vec<Document> = Vec::new();
        while rest.len() > 0
            invariant
                all == documents@,
                out@.len() + rest@.len() == all.len(),
                rest@ == all.subrange(out@.len() as int, all.len() as int),
                forall|i: int| 0 <= i < out@.len() ==> (#[trigger] out@[i]) == (Document { tags: out@[i].tags, ..all[i] }),
            decreases rest@.len(),
        {
            let document = rest.remove(0);
            let tags = self.tags_of(document.id as i64)?;
            out.push(Document { tags, ..document });
        }
        Ok(out)
    }

    /// The tags linked to a document.
    fn tags_of(&self, document_id: i64) -> (r: Result<Vec<Tag>, RepoError>)
        ensures
            r is Err ==> !(r->Err_0 is InvalidInput),
    {
        let rows = fetch(
            self.conn,
            "SELECT t.id, t.title, t.color, t.description, t.icon, t.created_at FROM tags t JOIN document_tags dt ON dt.tag_id = t.id WHERE dt.document_id = ?1",
            vec![SqlValue::Integer(document_id)],
            &tag_columns(),
        )?;
        tags_from_rows(rows)
    }
}

} // verus!
