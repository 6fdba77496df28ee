//! Book commands: input checks in front of the book repository.
use vstd::prelude::*;
use crate::book_repository::BookRepository;
use crate::codec::book_row;
use crate::error::BookCommandError;
use crate::links::{delete_owner_ops, link_ops, unlink_ops};
use crate::models::{Book, Tag};
use crate::sql::{text_of, Join, Op, SqlValue, Table};
use crate::text::with_number;

verus! {

/// The book that an update writes: each given field replaces the stored
/// one, and a field left `None` keeps its stored value.
pub open spec fn merged_book(stored: Book, id: i64, title: Option<String>, author: Option<String>, file_path: Option<String>) -> Book {
    Book {
        id,
        title: match title {
            Some(t) => t,
            None => stored.title,
        },
        author: match author {
            Some(a) => Some(a),
            None => stored.author,
        },
        file_path: match file_path {
            Some(f) => Some(f),
            None => stored.file_path,
        },
        tags: stored.tags,
    }
}

/// Merges the given fields into the stored book; no stored book is refused
/// as invalid input.
pub fn merge_book(existing: Option<Book>, id: i64, title: Option<String>, author: Option<String>, file_path: Option<String>) -> (r: Result<Book, BookCommandError>)
    ensures
        existing is None ==> r is Err && r->Err_0 is InvalidInput,
        existing is Some ==> r == Ok::<Book, BookCommandError>(merged_book(existing->Some_0, id, title, author, file_path)),
{
    match existing {
        Some(stored) => Ok(Book {
            id,
            title: match title {
                Some(t) => t,
                None => stored.title,
            },
            author: match author {
                Some(a) => Some(a),
                None => stored.author,
            },
            file_path: match file_path {
                Some(f) => Some(f),
                None => stored.file_path,
            },
            tags: stored.tags,
        }),
        None => Err(BookCommandError::InvalidInput(with_number("Book with ID ", id, " not found"))),
    }
}

/// What a deletion that removed `n` books reports: none removed is refused
/// as invalid input.
pub fn delete_outcome(n: usize, id: i64) -> (r: Result<String, BookCommandError>)
    ensures
        n == 0 <==> r is Err,
        r is Err ==> r->Err_0 is InvalidInput,
{
    if n == 0 {
        Err(BookCommandError::InvalidInput(with_number("Book with ID ", id, " not found")))
    } else {
        Ok(with_number("Book with ID ", id, " deleted successfully"))
    }
}

pub struct BookCommands<'a> {
    repository: BookRepository<'a>,
}

impl<'a> BookCommands<'a> {
    /// The writes committed through these commands, in order.
    pub closed spec fn history(&self) -> Seq<Op> {
        self.repository.history()
    }

    pub fn new(conn: &'a mut rusqlite::Connection) -> (r: Self)
        ensures
            r.history() == Seq::<Op>::empty(),
    {
        BookCommands { repository: BookRepository::new(conn) }
    }

    /// Stores a new book without tags. An empty title is refused before
    /// anything is written.
    pub fn insert_new_book_method(&mut self, title: String, author: Option<String>, file_path: Option<String>) -> (r: Result<String, BookCommandError>)
        ensures
            title@.len() == 0 ==> r is Err && r->Err_0 is InvalidInput,
            r is Err ==> final(self).history() == old(self).history(),
            title@.len() > 0 && r is Err ==> r->Err_0 is DatabaseError,
            r is Ok ==> final(self).history() == old(self).history().push(
                Op::Insert(Table::Books, seq![SqlValue::Text(title), text_of(author), text_of(file_path)])),
    {
        if title.as_str().is_empty() {
            return Err(BookCommandError::InvalidInput("You must provide a title".to_string()));
        }
        let book = Book { id: 0, title, author, file_path, tags: None };
        match self.repository.create_book(&book) {
            Ok(book_id) => {
                assert(link_ops(Join::BookTags, book_id, Seq::<Tag>::empty()) =~= Seq::<Op>::empty());
                assert(book_row(book) =~= seq![SqlValue::Text(book.title), text_of(book.author), text_of(book.file_path)]);
                Ok(with_number("Book inserted successfully with ID ", book_id, ""))
            },
            Err(err) => Err(BookCommandError::from_repo(err)),
        }
    }

    /// Changes the given fields of a stored book and keeps the others. An
    /// empty title is refused, and so is an id with no book; then nothing is
    /// written.
    pub fn update_book_method(&mut self, id: i64, title: Option<String>, author: Option<String>, file_path: Option<String>) -> (r: Result<String, BookCommandError>)
        ensures
            title is Some && title->Some_0@.len() == 0 ==> r is Err && r->Err_0 is InvalidInput,
            r is Err ==> final(self).history() == old(self).history(),
            r is Ok ==> exists|stored: Book| stored.id == id && final(self).history() == old(self).history().push(
                Op::Update(Table::Books, id, book_row(merged_book(stored, id, title, author, file_path)))),
    {
        match &title {
            Some(t) => {
                if t.as_str().is_empty() {
                    return Err(BookCommandError::InvalidInput("Title cannot be empty".to_string()));
                }
            },
            None => {},
        }
        let existing = match self.repository.get_book_by_id(id) {
            Ok(found) => found,
            Err(err) => {
                return Err(BookCommandError::from_repo(err));
            },
        };
        let book = merge_book(existing, id, title, author, file_path)?;
        match self.repository.update_book(&book) {
            Ok(_) => Ok(with_number("Book with ID ", id, " updated successfully")),
            Err(err) => Err(BookCommandError::from_repo(err)),
        }
    }

    /// Deletes a book and its links. An id with no book is reported as
    /// invalid input, exactly when no book was deleted; the (empty) deletion
    /// is still committed.
    pub fn delete_book_method(&mut self, id: i64) -> (r: Result<String, BookCommandError>)
        ensures
            r is Ok ==> final(self).history() == old(self).history() + delete_owner_ops(Join::BookTags, id),
            r is Err && r->Err_0 is InvalidInput ==> final(self).history() == old(self).history() + delete_owner_ops(Join::BookTags, id),
            r is Err && !(r->Err_0 is InvalidInput) ==> final(self).history() == old(self).history(),
    {
        match self.repository.delete_book(id) {
            Ok(n) => delete_outcome(n, id),
            Err(err) => Err(BookCommandError::from_repo(err)),
        }
    }

    pub fn get_all_books_method(&self) -> (r: Result<Vec<Book>, BookCommandError>)
        ensures
            r is Err ==> !(r->Err_0 is InvalidInput),
    {
        match self.repository.get_all_books() {
            Ok(books) => Ok(books),
            Err(err) => Err(BookCommandError::from_repo(err)),
        }
    }

    /// Links a book to the given stored tags. An empty list is refused.
    pub fn add_tags_to_book_method(&mut self, book_id: i64, tags: Vec<Tag>) -> (r: Result<String, BookCommandError>)
        ensures
            tags@.len() == 0 ==> r is Err && r->Err_0 is InvalidInput,
            r is Err ==> final(self).history() == old(self).history(),
            tags@.len() > 0 && r is Err ==> r->Err_0 is DatabaseError,
            r is Ok ==> final(self).history() == old(self).history() + link_ops(Join::BookTags, book_id, tags@),
    {
        if tags.len() == 0 {
            return Err(BookCommandError::InvalidInput("No tags provided".to_string()));
        }
        match self.repository.add_tags_to_book(book_id, tags) {
            Ok(()) => Ok(with_number("Tags added successfully to book ", book_id, "")),
            Err(err) => Err(BookCommandError::from_repo(err)),
        }
    }

    /// Removes the links from a book to the given tags. An empty list is refused.
    pub fn remove_tags_from_book_method(&mut self, book_id: i64, tags: Vec<Tag>) -> (r: Result<String, BookCommandError>)
        ensures
            tags@.len() == 0 ==> r is Err && r->Err_0 is InvalidInput,
            r is Err ==> final(self).history() == old(self).history(),
            tags@.len() > 0 && r is Err ==> r->Err_0 is DatabaseError,
            r is Ok ==> final(self).history() == old(self).history() + unlink_ops(Join::BookTags, book_id, tags@),
    {
        if tags.len() == 0 {
            return Err(BookCommandError::InvalidInput("No tags provided".to_string()));
        }
        match self.repository.remove_tags_from_book(book_id, tags) {
            Ok(()) => Ok(with_number("Tags removed successfully from book ", book_id, "")),
            Err(err) => Err(BookCommandError::from_repo(err)),
        }
    }
}

} // verus!
