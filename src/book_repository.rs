//! Books and their tags.
use vstd::prelude::*;
use crate::codec::{book_columns, book_from, book_kinds, book_row, book_values, decode_book, tag_columns};
use crate::error::RepoError;
use crate::links::{delete_owner_ops, lemma_delete_clears, lemma_link_ops_add, lemma_unlink_ops_remove, link_all, link_ops, links, tag_ids, unlink_all, unlink_ops};
use crate::models::{Book, Tag};
use crate::sql::{fetch, row_fits, Join, Op, SqlValue, Stmt, Table, Tx};
use crate::tag_repository::tags_from_rows;

verus! {

pub open spec fn tags_in(tags: Option<Vec<Tag>>) -> Seq<Tag> {
    match tags {
        Some(v) => v@,
        None => Seq::empty(),
    }
}

/// The writes that store a new book under `id`: its row, then a link to each
/// of its stored tags.
pub open spec fn create_book_ops(b: Book, id: i64) -> Seq<Op> {
    seq![Op::Insert(Table::Books, book_row(b))] + link_ops(Join::BookTags, id, tags_in(b.tags))
}

/// A new book is linked to the stored tags it was created with.
pub proof fn lemma_book_create_links(h: Seq<Op>, b: Book, id: i64)
    ensures
        links(h + create_book_ops(b, id), Join::BookTags, id) == links(h, Join::BookTags, id) + tag_ids(tags_in(b.tags)),
{
    let h1 = h.push(Op::Insert(Table::Books, book_row(b)));
    assert(h1.drop_last() =~= h);
    assert(h + create_book_ops(b, id) =~= h1 + link_ops(Join::BookTags, id, tags_in(b.tags)));
    lemma_link_ops_add(h1, Join::BookTags, id, tags_in(b.tags));
}

/// Removing tags from a book leaves exactly its other links.
pub proof fn lemma_book_remove_tags(h: Seq<Op>, id: i64, tags: Seq<Tag>)
    ensures
        links(h + unlink_ops(Join::BookTags, id, tags), Join::BookTags, id) == links(h, Join::BookTags, id) - tag_ids(tags),
{
    lemma_unlink_ops_remove(h, Join::BookTags, id, tags);
}

/// After a book is deleted it has no tags left.
pub proof fn lemma_book_delete_clears_links(h: Seq<Op>, id: i64)
    ensures
        links(h + delete_owner_ops(Join::BookTags, id), Join::BookTags, id) == Set::<i64>::empty(),
{
    lemma_delete_clears(h, Join::BookTags, id);
}

/// The book that the rows selected for `id` hold, with `tags`: none where
/// there is no row, else the first row decoded, which must carry `id`.
pub fn book_of_rows(rows: Vec<Vec<SqlValue>>, id: i64, tags: Option<Vec<Tag>>) -> (r: Result<Option<Book>, RepoError>)
    requires
        forall|i: int| 0 <= i < rows@.len() ==> #[trigger] row_fits(rows@[i]@, book_kinds()),
    ensures
        rows@.len() == 0 ==> r == Ok::<Option<Book>, RepoError>(None),
        rows@.len() > 0 && book_from(rows@[0]@, tags) is None ==> r is Err && r->Err_0 is DatabaseError,
        rows@.len() > 0 && book_from(rows@[0]@, tags) is Some ==> if book_from(rows@[0]@, tags)->Some_0.id == id {
            r == Ok::<Option<Book>, RepoError>(book_from(rows@[0]@, tags))
        } else {
            r is Err && r->Err_0 is UnexpectedError
        },
{
    let mut rows = rows;
    if rows.len() == 0 {
        return Ok(None);
    }
    let row = rows.remove(0);
    assert(row_fits(row@, book_kinds()));
    assert(book_kinds().len() == 4);
    match decode_book(row, tags) {
        Some(book) => if book.id == id {
            Ok(Some(book))
        } else {
            Err(RepoError::UnexpectedError("the book read back has another id".to_string()))
        },
        None => Err(RepoError::DatabaseError("a stored book has no id or title".to_string())),
    }
}

/// One book per row, in order, each decoded from its row with no tags yet.
pub fn books_from_rows(rows: Vec<Vec<SqlValue>>) -> (r: Result<Vec<Book>, RepoError>)
    requires
        forall|i: int| 0 <= i < rows@.len() ==> #[trigger] row_fits(rows@[i]@, book_kinds()),
    ensures
        r is Ok <==> forall|i: int| 0 <= i < rows@.len() ==> (#[trigger] book_from(rows@[i]@, None)) is Some,
        r is Ok ==> r->Ok_0@.len() == rows@.len() && forall|i: int| 0 <= i < rows@.len() ==>
            book_from(rows@[i]@, None) == Some(#[trigger] r->Ok_0@[i]),
        r is Err ==> r->Err_0 is DatabaseError,
{
    let ghost all = rows@;
    let mut rest = rows;
    let mut out: Vec<Book> = Vec::new();
    while rest.len() > 0
        invariant
            all == rows@,
            out@.len() + rest@.len() == all.len(),
            rest@ == all.subrange(out@.len() as int, all.len() as int),
            forall|i: int| 0 <= i < all.len() ==> #[trigger] row_fits(all[i]@, book_kinds()),
            forall|i: int| 0 <= i < out@.len() ==> book_from(all[i]@, None) == Some(#[trigger] out@[i]),
        decreases rest@.len(),
    {
        let row = rest.remove(0);
        let ghost k = out@.len() as int;
        assert(row@ == all[k]@);
        assert(row_fits(all[k]@, book_kinds()));
        assert(book_kinds().len() == 4);
        match decode_book(row, None) {
            Some(book) => out.push(book),
            None => {
                assert(book_from(all[k]@, None) is None);
                return Err(RepoError::DatabaseError("a stored book has no id or title".to_string()));
            },
        }
    }
    assert forall|i: int| 0 <= i < all.len() implies (#[trigger] book_from(all[i]@, None)) is Some by {
        assert(book_from(all[i]@, None) == Some(out@[i]));
    }
    Ok(out)
}

pub struct BookRepository<'a> {
    conn: &'a mut rusqlite::Connection,
    history: Ghost<Seq<Op>>,
}

impl<'a> BookRepository<'a> {
    /// The writes this repository has committed, in order.
    pub closed spec fn history(&self) -> Seq<Op> {
        self.history@
    }

    pub fn new(conn: &'a mut rusqlite::Connection) -> (r: Self)
        ensures
            r.history() == Seq::<Op>::empty(),
    {
        BookRepository { conn, history: Ghost(Seq::empty()) }
    }

    /// Stores a book and links it to its stored tags, in one transaction;
    /// returns the new id. On failure nothing is kept.
    pub fn create_book(&mut self, book: &Book) -> (r: Result<i64, RepoError>)
        ensures
            r is Ok ==> final(self).history() == old(self).history() + create_book_ops(*book, r->Ok_0),
            r is Err ==> final(self).history() == old(self).history() && r->Err_0 is DatabaseError,
    {
        let mut tx = Tx::begin(self.conn)?;
        tx.run(Stmt::Insert { table: Table::Books, values: book_values(book) })?;
        let book_id = tx.last_insert_id();
        match &book.tags {
            Some(tags) => {
                link_all(&mut tx, Join::BookTags, book_id, tags)?;
            },
            None => {},
        }
        let ghost ran = tx.ran();
        tx.commit()?;
        self.history = Ghost(self.history@ + ran);
        assert(ran =~= create_book_ops(*book, book_id));
        Ok(book_id)
    }

    /// Replaces the title, author and file path of the book with `book.id`;
    /// returns the number of rows changed. Its tags are left as they are.
    pub fn update_book(&mut self, book: &Book) -> (r: Result<usize, RepoError>)
        ensures
            r is Ok ==> final(self).history() == old(self).history().push(Op::Update(Table::Books, book.id, book_row(*book))),
            r is Err ==> final(self).history() == old(self).history() && r->Err_0 is DatabaseError,
    {
        let mut tx = Tx::begin(self.conn)?;
        let n = tx.run(Stmt::Update { table: Table::Books, id: book.id, values: book_values(book) })?;
        let ghost ran = tx.ran();
        tx.commit()?;
        self.history = Ghost(self.history@ + ran);
        assert(ran =~= seq![Op::Update(Table::Books, book.id, book_row(*book))]);
        Ok(n)
    }

    /// Deletes a book and its links in one transaction; returns the number
    /// of books deleted (0 where there was none with that id).
    pub fn delete_book(&mut self, id: i64) -> (r: Result<usize, RepoError>)
        ensures
            r is Ok ==> final(self).history() == old(self).history() + delete_owner_ops(Join::BookTags, id),
            r is Err ==> final(self).history() == old(self).history() && r->Err_0 is DatabaseError,
    {
        let mut tx = Tx::begin(self.conn)?;
        tx.run(Stmt::UnlinkAll { join: Join::BookTags, owner: id })?;
        let n = tx.run(Stmt::Delete { table: Table::Books, id })?;
        let ghost ran = tx.ran();
        tx.commit()?;
        self.history = Ghost(self.history@ + ran);
        assert(ran =~= delete_owner_ops(Join::BookTags, id));
        Ok(n)
    }

    /// The book with this id, with its tags; `None` where there is none.
    pub fn get_book_by_id(&self, id: i64) -> (r: Result<Option<Book>, RepoError>)
        ensures
            r is Ok && r->Ok_0 is Some ==> r->Ok_0->Some_0.id == id && r->Ok_0->Some_0.tags is Some,
            r is Err ==> !(r->Err_0 is InvalidInput),
    {
        let kinds = book_columns();
        let rows = fetch(self.conn, "SELECT id, title, author, file_path FROM books WHERE id = ?1", vec![SqlValue::Integer(id)], &kinds)?;
        if rows.len() == 0 {
            return book_of_rows(rows, id, None);
        }
        let tags = self.get_tags_by_book_id(id)?;
        book_of_rows(rows, id, Some(tags))
    }

    /// Every book, each with its tags.
    pub fn get_all_books(&self) -> (r: Result<Vec<Book>, RepoError>)
        ensures
            r is Ok ==> forall|i: int| 0 <= i < r->Ok_0@.len() ==> (#[trigger] r->Ok_0@[i]).tags is Some,
            r is Err ==> !(r->Err_0 is InvalidInput),
    {
        let kinds = book_columns();
        let rows = fetch(self.conn, "SELECT id, title, author, file_path FROM books", Vec::new(), &kinds)?;
        let books = books_from_rows(rows)?;
        self.with_tags(books)
    }

    /// The same books, in order, each with the tags linked to it; every other
    /// field is kept.
    pub fn with_tags(&self, books: Vec<Book>) -> (r: Result<Vec<Book>, RepoError>)
        ensures
            r is Ok ==> r->Ok_0@.len() == books@.len() && forall|i: int| 0 <= i < books@.len() ==>
                (#[trigger] r->Ok_0@[i]).tags is Some && r->Ok_0@[i] == (Book { tags: r->Ok_0@[i].tags, ..books@[i] }),
            r is Err ==> !(r->Err_0 is InvalidInput),
    {
        let ghost all = books@;
        let mut rest = books;
        let mut out: Vec<Book> = Vec::new();
        while rest.len() > 0
            invariant
                all == books@,
                out@.len() + rest@.len() == all.len(),
                rest@ == all.subrange(out@.len() as int, all.len() as int),
                forall|i: int| 0 <= i < out@.len() ==> (#[trigger] out@[i]).tags is Some && out@[i] == (Book { tags: out@[i].tags, ..all[i] }),
            decreases rest@.len(),
        {
            let book = rest.remove(0);
            let tags = self.get_tags_by_book_id(book.id)?;
            out.push(Book { tags: Some(tags), ..book });
        }
        Ok(out)
    }

    /// The tags linked to a book; empty where it has none or does not exist.
    pub fn get_tags_by_book_id(&self, book_id: i64) -> (r: Result<Vec<Tag>, RepoError>)
        ensures
            r is Err ==> !(r->Err_0 is InvalidInput),
    {
        let rows = fetch(
            self.conn,
            "SELECT t.id, t.title, t.color, t.description, t.icon, t.created_at FROM tags t JOIN book_tags bt ON bt.tag_id = t.id WHERE bt.book_id = ?1",
            vec![SqlValue::Integer(book_id)],
            &tag_columns(),
        )?;
        tags_from_rows(rows)
    }

    /// Links a book to each stored tag of `tags`, in one transaction.
    pub fn add_tags_to_book(&mut self, book_id: i64, tags: Vec<Tag>) -> (r: Result<(), RepoError>)
        ensures
            r is Ok ==> final(self).history() == old(self).history() + link_ops(Join::BookTags, book_id, tags@),
            r is Err ==> final(self).history() == old(self).history() && r->Err_0 is DatabaseError,
    {
        let mut tx = Tx::begin(self.conn)?;
        link_all(&mut tx, Join::BookTags, book_id, &tags)?;
        let ghost ran = tx.ran();
        tx.commit()?;
        self.history = Ghost(self.history@ + ran);
        assert(ran =~= link_ops(Join::BookTags, book_id, tags@));
        Ok(())
    }

    /// Removes the links from a book to each stored tag of `tags`, in one
    /// transaction.
    pub fn remove_tags_from_book(&mut self, book_id: i64, tags: Vec<Tag>) -> (r: Result<(), RepoError>)
        ensures
            r is Ok ==> final(self).history() == old(self).history() + unlink_ops(Join::BookTags, book_id, tags@),
            r is Err ==> final(self).history() == old(self).history() && r->Err_0 is DatabaseError,
    {
        let mut tx = Tx::begin(self.conn)?;
        unlink_all(&mut tx, Join::BookTags, book_id, &tags)?;
        let ghost ran = tx.ran();
        tx.commit()?;
        self.history = Ghost(self.history@ + ran);
        assert(ran =~= unlink_ops(Join::BookTags, book_id, tags@));
        Ok(())
    }
}

} // verus!
