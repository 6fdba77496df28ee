//! The mapping between entities and rows: the values an insert or update
//! binds, and the entity a selected row decodes to.
use vstd::prelude::*;
use crate::models::{Book, Document, Tag, Task};
use crate::sql::{int_of, int_value, text_of, text_value, Kind, SqlValue};

verus! {

/// The text held by a value; NULL (or a value of another kind) has none.
pub open spec fn text_in(v: SqlValue) -> Option<String> {
    match v {
        SqlValue::Text(s) => Some(s),
        _ => None,
    }
}

pub open spec fn int_in(v: SqlValue) -> Option<i64> {
    match v {
        SqlValue::Integer(i) => Some(i),
        _ => None,
    }
}

pub open spec fn i32_in(v: SqlValue) -> Option<i32> {
    match v {
        SqlValue::Integer(i) => if i32::MIN <= i <= i32::MAX {
            Some(i as i32)
        } else {
            None
        },
        _ => None,
    }
}

pub fn take_text(v: SqlValue) -> (r: Option<String>)
    ensures
        r == text_in(v),
{
    match v {
        SqlValue::Text(s) => Some(s),
        _ => None,
    }
}

pub fn take_int(v: SqlValue) -> (r: Option<i64>)
    ensures
        r == int_in(v),
{
    match v {
        SqlValue::Integer(i) => Some(i),
        _ => None,
    }
}

pub fn take_i32(v: SqlValue) -> (r: Option<i32>)
    ensures
        r == i32_in(v),
{
    match v {
        SqlValue::Integer(i) => if i32::MIN as i64 <= i && i <= i32::MAX as i64 {
            Some(i as i32)
        } else {
            None
        },
        _ => None,
    }
}

pub fn copy_text(s: &Option<String>) -> (r: Option<String>)
    ensures
        r == *s,
{
    match s {
        Some(t) => Some(t.clone()),
        None => None,
    }
}

/// Removes and returns the last value of a row.
fn pop_value(row: &mut Vec<SqlValue>) -> (r: SqlValue)
    requires
        old(row)@.len() > 0,
    ensures
        r == old(row)@.last(),
        final(row)@ == old(row)@.drop_last(),
{
    row.pop().unwrap()
}

// ---- tags ----

/// The values an insert or update of a tag binds: title, color, description, icon.
pub open spec fn tag_row(t: Tag) -> Seq<SqlValue> {
    seq![SqlValue::Text(t.title), SqlValue::Text(t.color), text_of(t.description), text_of(t.icon)]
}

/// The columns a tag is selected with: id, title, color, description, icon, created_at.
pub open spec fn tag_kinds() -> Seq<Kind> {
    seq![Kind::Int, Kind::Text, Kind::Text, Kind::Text, Kind::Text, Kind::Text]
}

/// The tag a selected row holds; `None` where a required column is NULL.
pub open spec fn tag_from(row: Seq<SqlValue>) -> Option<Tag> {
    match (int_in(row[0]), text_in(row[1]), text_in(row[2])) {
        (Some(id), Some(title), Some(color)) => Some(Tag {
            id: Some(id),
            title,
            color,
            description: text_in(row[3]),
            icon: text_in(row[4]),
            created_at: text_in(row[5]),
        }),
        _ => None,
    }
}

pub fn tag_values(t: &Tag) -> (r: Vec<SqlValue>)
    ensures
        r@ == tag_row(*t),
{
    let r = vec![SqlValue::Text(t.title.clone()), SqlValue::Text(t.color.clone()), text_value(copy_text(&t.description)), text_value(copy_text(&t.icon))];
    assert(r@ =~= tag_row(*t));
    r
}

pub fn tag_columns() -> (r: Vec<Kind>)
    ensures
        r@ == tag_kinds(),
{
    let r = vec![Kind::Int, Kind::Text, Kind::Text, Kind::Text, Kind::Text, Kind::Text];
    assert(r@ =~= tag_kinds());
    r
}

pub fn decode_tag(row: Vec<SqlValue>) -> (r: Option<Tag>)
    requires
        row@.len() == 6,
    ensures
        r == tag_from(row@),
{
    let ghost v = row@;
    let mut row = row;
    let created_at = take_text(pop_value(&mut row));
    let icon = take_text(pop_value(&mut row));
    let description = take_text(pop_value(&mut row));
    let color = take_text(pop_value(&mut row));
    let title = take_text(pop_value(&mut row));
    let id = take_int(pop_value(&mut row));
    match (id, title, color) {
        (Some(id), Some(title), Some(color)) => Some(Tag { id: Some(id), title, color, description, icon, created_at }),
        _ => None,
    }
}

/// A stored tag reads back as it was written, with the id and creation time
/// that the database gave it.
pub proof fn lemma_tag_round_trip(t: Tag, id: i64, created_at: Option<String>)
    ensures
        tag_from(seq![SqlValue::Integer(id)] + tag_row(t) + seq![text_of(created_at)]) == Some(Tag {
            id: Some(id),
            created_at,
            ..t
        }),
{
    let row = seq![SqlValue::Integer(id)] + tag_row(t) + seq![text_of(created_at)];
    assert(row[0] == SqlValue::Integer(id));
    assert(row[1] == SqlValue::Text(t.title));
    assert(row[2] == SqlValue::Text(t.color));
    assert(row[3] == text_of(t.description));
    assert(row[4] == text_of(t.icon));
    assert(row[5] == text_of(created_at));
}

// ---- books ----

/// The values an insert or update of a book binds: title, author, file path.
pub open spec fn book_row(b: Book) -> Seq<SqlValue> {
    seq![SqlValue::Text(b.title), text_of(b.author), text_of(b.file_path)]
}

/// The columns a book is selected with: id, title, author, file path.
pub open spec fn book_kinds() -> Seq<Kind> {
    seq![Kind::Int, Kind::Text, Kind::Text, Kind::Text]
}

pub open spec fn book_from(row: Seq<SqlValue>, tags: Option<Vec<Tag>>) -> Option<Book> {
    match (int_in(row[0]), text_in(row[1])) {
        (Some(id), Some(title)) => Some(Book { id, title, author: text_in(row[2]), file_path: text_in(row[3]), tags }),
        _ => None,
    }
}

pub fn book_values(b: &Book) -> (r: Vec<SqlValue>)
    ensures
        r@ == book_row(*b),
{
    let r = vec![SqlValue::Text(b.title.clone()), text_value(copy_text(&b.author)), text_value(copy_text(&b.file_path))];
    assert(r@ =~= book_row(*b));
    r
}

pub fn book_columns() -> (r: Vec<Kind>)
    ensures
        r@ == book_kinds(),
{
    let r = vec![Kind::Int, Kind::Text, Kind::Text, Kind::Text];
    assert(r@ =~= book_kinds());
    r
}

pub fn decode_book(row: Vec<SqlValue>, tags: Option<Vec<Tag>>) -> (r: Option<Book>)
    requires
        row@.len() == 4,
    ensures
        r == book_from(row@, tags),
{
    let mut row = row;
    let file_path = take_text(pop_value(&mut row));
    let author = take_text(pop_value(&mut row));
    let title = take_text(pop_value(&mut row));
    let id = take_int(pop_value(&mut row));
    match (id, title) {
        (Some(id), Some(title)) => Some(Book { id, title, author, file_path, tags }),
        _ => None,
    }
}

/// A stored book reads back as it was written, under the id the database gave it.
pub proof fn lemma_book_round_trip(b: Book, id: i64)
    ensures
        book_from(seq![SqlValue::Integer(id)] + book_row(b), b.tags) == Some(Book { id, ..b }),
{
    let row = seq![SqlValue::Integer(id)] + book_row(b);
    assert(row[0] == SqlValue::Integer(id));
    assert(row[1] == SqlValue::Text(b.title));
    assert(row[2] == text_of(b.author));
    assert(row[3] == text_of(b.file_path));
}

// ---- tasks ----

/// The values an insert or update of a task binds: title, description,
/// status, created_at, due_date, completed_at, document_id.
pub open spec fn task_row(t: Task) -> Seq<SqlValue> {
    seq![
        SqlValue::Text(t.title),
        text_of(t.description),
        SqlValue::Text(t.status),
        SqlValue::Text(t.created_at),
        text_of(t.due_date),
        text_of(t.completed_at),
        int_of(t.document_id),
    ]
}

/// The columns a task is selected with: id, then those of `task_row`.
pub open spec fn task_kinds() -> Seq<Kind> {
    seq![Kind::Int, Kind::Text, Kind::Text, Kind::Text, Kind::Text, Kind::Text, Kind::Text, Kind::Int]
}

pub open spec fn task_from(row: Seq<SqlValue>, tags: Vec<Tag>) -> Option<Task> {
    match (i32_in(row[0]), text_in(row[1]), text_in(row[3]), text_in(row[4])) {
        (Some(id), Some(title), Some(status), Some(created_at)) => Some(Task {
            id,
            title,
            description: text_in(row[2]),
            status,
            created_at,
            due_date: text_in(row[5]),
            completed_at: text_in(row[6]),
            document_id: int_in(row[7]),
            tags,
        }),
        _ => None,
    }
}

pub fn task_values(t: &Task) -> (r: Vec<SqlValue>)
    ensures
        r@ == task_row(*t),
{
    let r = vec![
        SqlValue::Text(t.title.clone()),
        text_value(copy_text(&t.description)),
        SqlValue::Text(t.status.clone()),
        SqlValue::Text(t.created_at.clone()),
        text_value(copy_text(&t.due_date)),
        text_value(copy_text(&t.completed_at)),
        int_value(t.document_id),
    ];
    assert(r@ =~= task_row(*t));
    r
}

pub fn task_columns() -> (r: Vec<Kind>)
    ensures
        r@ == task_kinds(),
{
    let r = vec![Kind::Int, Kind::Text, Kind::Text, Kind::Text, Kind::Text, Kind::Text, Kind::Text, Kind::Int];
    assert(r@ =~= task_kinds());
    r
}

pub fn decode_task(row: Vec<SqlValue>, tags: Vec<Tag>) -> (r: Option<Task>)
    requires
        row@.len() == 8,
    ensures
        r == task_from(row@, tags),
{
    let mut row = row;
    let document_id = take_int(pop_value(&mut row));
    let completed_at = take_text(pop_value(&mut row));
    let due_date = take_text(pop_value(&mut row));
    let created_at = take_text(pop_value(&mut row));
    let status = take_text(pop_value(&mut row));
    let description = take_text(pop_value(&mut row));
    let title = take_text(pop_value(&mut row));
    let id = take_i32(pop_value(&mut row));
    match (id, title, status, created_at) {
        (Some(id), Some(title), Some(status), Some(created_at)) => Some(Task {
            id,
            title,
            description,
            status,
            created_at,
            due_date,
            completed_at,
            document_id,
            tags,
        }),
        _ => None,
    }
}

/// A stored task reads back as it was written.
pub proof fn lemma_task_round_trip(t: Task)
    ensures
        task_from(seq![SqlValue::Integer(t.id as i64)] + task_row(t), t.tags) == Some(t),
{
    let row = seq![SqlValue::Integer(t.id as i64)] + task_row(t);
    assert(row[0] == SqlValue::Integer(t.id as i64));
    assert(row[1] == SqlValue::Text(t.title));
    assert(row[2] == text_of(t.description));
    assert(row[3] == SqlValue::Text(t.status));
    assert(row[4] == SqlValue::Text(t.created_at));
    assert(row[5] == text_of(t.due_date));
    assert(row[6] == text_of(t.completed_at));
    assert(row[7] == int_of(t.document_id));
}

// ---- documents ----

/// The values an insert or update of a document binds, in column order.
pub open spec fn document_row(d: Document) -> Seq<SqlValue> {
    seq![
        SqlValue::Text(d.title),
        SqlValue::Text(d.original_filename),
        SqlValue::Text(d.stored_filename),
        SqlValue::Text(d.file_path),
        SqlValue::Integer(d.file_size),
        SqlValue::Text(d.mime_type),
        SqlValue::Text(d.hash),
        SqlValue::Integer(d.page_count as i64),
        SqlValue::Text(d.created_at),
        text_of(d.last_accessed),
        text_of(d.thumbnail_path),
    ]
}

/// The columns a document is selected with: id, then those of `document_row`.
pub open spec fn document_kinds() -> Seq<Kind> {
    seq![
        Kind::Int, Kind::Text, Kind::Text, Kind::Text, Kind::Text, Kind::Int,
        Kind::Text, Kind::Text, Kind::Int, Kind::Text, Kind::Text, Kind::Text,
    ]
}

pub open spec fn document_from(row: Seq<SqlValue>, tags: Vec<Tag>) -> Option<Document> {
    match (i32_in(row[0]), text_in(row[1]), text_in(row[2]), text_in(row[3]), text_in(row[4]), int_in(row[5])) {
        (Some(id), Some(title), Some(original_filename), Some(stored_filename), Some(file_path), Some(file_size)) =>
            match (text_in(row[6]), text_in(row[7]), i32_in(row[8]), text_in(row[9])) {
                (Some(mime_type), Some(hash), Some(page_count), Some(created_at)) => Some(Document {
                    id,
                    title,
                    original_filename,
                    stored_filename,
                    file_path,
                    file_size,
                    mime_type,
                    hash,
                    page_count,
                    created_at,
                    last_accessed: text_in(row[10]),
                    thumbnail_path: text_in(row[11]),
                    tags,
                }),
                _ => None,
            },
        _ => None,
    }
}

pub fn document_values(d: &Document) -> (r: Vec<SqlValue>)
    ensures
        r@ == document_row(*d),
{
    let r = vec![
        SqlValue::Text(d.title.clone()),
        SqlValue::Text(d.original_filename.clone()),
        SqlValue::Text(d.stored_filename.clone()),
        SqlValue::Text(d.file_path.clone()),
        SqlValue::Integer(d.file_size),
        SqlValue::Text(d.mime_type.clone()),
        SqlValue::Text(d.hash.clone()),
        SqlValue::Integer(d.page_count as i64),
        SqlValue::Text(d.created_at.clone()),
        text_value(copy_text(&d.last_accessed)),
        text_value(copy_text(&d.thumbnail_path)),
    ];
    assert(r@ =~= document_row(*d));
    r
}

pub fn document_columns() -> (r: Vec<Kind>)
    ensures
        r@ == document_kinds(),
{
    let r = vec![
        Kind::Int, Kind::Text, Kind::Text, Kind::Text, Kind::Text, Kind::Int,
        Kind::Text, Kind::Text, Kind::Int, Kind::Text, Kind::Text, Kind::Text,
    ];
    assert(r@ =~= document_kinds());
    r
}

pub fn decode_document(row: Vec<SqlValue>, tags: Vec<Tag>) -> (r: Option<Document>)
    requires
        row@.len() == 12,
    ensures
        r == document_from(row@, tags),
{
    let mut row = row;
    let thumbnail_path = take_text(pop_value(&mut row));
    let last_accessed = take_text(pop_value(&mut row));
    let created_at = take_text(pop_value(&mut row));
    let page_count = take_i32(pop_value(&mut row));
    let hash = take_text(pop_value(&mut row));
    let mime_type = take_text(pop_value(&mut row));
    let file_size = take_int(pop_value(&mut row));
    let file_path = take_text(pop_value(&mut row));
    let stored_filename = take_text(pop_value(&mut row));
    let original_filename = take_text(pop_value(&mut row));
    let title = take_text(pop_value(&mut row));
    let id = take_i32(pop_value(&mut row));
    match (id, title, original_filename, stored_filename, file_path, file_size) {
        (Some(id), Some(title), Some(original_filename), Some(stored_filename), Some(file_path), Some(file_size)) =>
            match (mime_type, hash, page_count, created_at) {
                (Some(mime_type), Some(hash), Some(page_count), Some(created_at)) => Some(Document {
                    id,
                    title,
                    original_filename,
                    stored_filename,
                    file_path,
                    file_size,
                    mime_type,
                    hash,
                    page_count,
                    created_at,
                    last_accessed,
                    thumbnail_path,
                    tags,
                }),
                _ => None,
            },
        _ => None,
    }
}

/// A stored document reads back as it was written.
pub proof fn lemma_document_round_trip(d: Document)
    ensures
        document_from(seq![SqlValue::Integer(d.id as i64)] + document_row(d), d.tags) == Some(d),
{
    let row = seq![SqlValue::Integer(d.id as i64)] + document_row(d);
    assert(row[0] == SqlValue::Integer(d.id as i64));
    assert(row[1] == SqlValue::Text(d.title));
    assert(row[2] == SqlValue::Text(d.original_filename));
    assert(row[3] == SqlValue::Text(d.stored_filename));
    assert(row[4] == SqlValue::Text(d.file_path));
    assert(row[5] == SqlValue::Integer(d.file_size));
    assert(row[6] == SqlValue::Text(d.mime_type));
    assert(row[7] == SqlValue::Text(d.hash));
    assert(row[8] == SqlValue::Integer(d.page_count as i64));
    assert(row[9] == SqlValue::Text(d.created_at));
    assert(row[10] == text_of(d.last_accessed));
    assert(row[11] == text_of(d.thumbnail_path));
}

} // verus!
