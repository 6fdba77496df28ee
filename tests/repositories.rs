use rusqlite::Connection;
use study_studio::book_repository::BookRepository;
use study_studio::document_repository::DocumentRepository;
use study_studio::error::RepoError;
use study_studio::models::{Book, DayOfWeek, Document, Tag, Task, User, UserStatus};
use study_studio::user_repository::UserRepository;
use study_studio::schema::run_migrations;
use study_studio::tag_repository::TagRepository;
use study_studio::task_repository::{task_of_rows, TaskRepository};
use study_studio::book_commands::merge_book;
use study_studio::document_commands::stamp_access;
use study_studio::sql::SqlValue;
use study_studio::text::contains;
use study_studio::schema::{migration_plan, SchemaStep, SchemaTable};

fn open() -> Connection {
    let conn = Connection::open_in_memory().unwrap();
    run_migrations(&conn).unwrap();
    conn
}

fn count(conn: &Connection, table: &str) -> i64 {
    conn.query_row(&format!("SELECT COUNT(*) FROM {}", table), [], |r| r.get(0)).unwrap()
}

fn tag(title: &str, color: &str) -> Tag {
    Tag { id: None, title: title.to_string(), color: color.to_string(), description: None, icon: None, created_at: None }
}

fn stored_tag(conn: &mut Connection, title: &str, color: &str) -> Tag {
    let mut repo = TagRepository::new(conn);
    let id = repo.create_tag(&tag(title, color)).unwrap();
    Tag { id: Some(id), ..tag(title, color) }
}

fn task(title: &str, tags: Vec<Tag>) -> Task {
    Task {
        id: 0,
        title: title.to_string(),
        description: Some("read chapter 3".to_string()),
        status: "pending".to_string(),
        created_at: "2024-05-01T10:00:00+00:00".to_string(),
        due_date: Some("2024-05-08T10:00:00+00:00".to_string()),
        completed_at: None,
        document_id: None,
        tags,
    }
}

fn document(title: &str) -> Document {
    Document {
        id: 0,
        title: title.to_string(),
        original_filename: "notes.pdf".to_string(),
        stored_filename: "a1b2.pdf".to_string(),
        file_path: "/data/a1b2.pdf".to_string(),
        file_size: 20480,
        mime_type: "application/pdf".to_string(),
        hash: "d41d8cd98f00b204".to_string(),
        page_count: 12,
        created_at: "2024-05-01T10:00:00+00:00".to_string(),
        last_accessed: None,
        thumbnail_path: Some("/data/a1b2.png".to_string()),
        tags: Vec::new(),
    }
}

fn ids(tags: &[Tag]) -> Vec<i64> {
    let mut v: Vec<i64> = tags.iter().map(|t| t.id.unwrap()).collect();
    v.sort();
    v
}

#[test]
fn migrations_run_twice_keep_tables_and_rows() {
    let mut conn = open();
    stored_tag(&mut conn, "urgent", "#ff0000");
    run_migrations(&conn).unwrap();
    let tables: i64 = conn
        .query_row("SELECT COUNT(*) FROM sqlite_master WHERE type = 'table' AND name NOT LIKE 'sqlite_%'", [], |r| r.get(0))
        .unwrap();
    assert_eq!(tables, 10);
    assert_eq!(count(&conn, "tags"), 1);
}

#[test]
fn book_with_tag_then_tag_removed() {
    let mut conn = open();
    let urgent = stored_tag(&mut conn, "urgent", "#ff0000");
    let mut books = BookRepository::new(&mut conn);
    let book = Book {
        id: 0,
        title: "Clean Code".to_string(),
        author: Some("Robert Martin".to_string()),
        file_path: None,
        tags: Some(vec![Tag { id: urgent.id, ..tag("urgent", "#ff0000") }]),
    };
    let id = books.create_book(&book).unwrap();
    let fetched = books.get_book_by_id(id).unwrap().unwrap();
    let tags = fetched.tags.unwrap();
    assert_eq!(tags.len(), 1);
    assert_eq!(tags[0].title, "urgent");
    books.remove_tags_from_book(id, vec![Tag { id: urgent.id, ..tag("urgent", "#ff0000") }]).unwrap();
    let again = books.get_book_by_id(id).unwrap().unwrap();
    assert_eq!(again.tags.unwrap().len(), 0);
}

#[test]
fn book_round_trip() {
    let mut conn = open();
    let mut books = BookRepository::new(&mut conn);
    let book = Book { id: 0, title: "Refactoring".to_string(), author: None, file_path: Some("/b/r.pdf".to_string()), tags: Some(Vec::new()) };
    let id = books.create_book(&book).unwrap();
    let fetched = books.get_book_by_id(id).unwrap().unwrap();
    assert_eq!(fetched, Book { id, ..book });
    assert!(books.get_book_by_id(id + 100).unwrap().is_none());
}

#[test]
fn tag_round_trip_keeps_fields() {
    let mut conn = open();
    let mut tags = TagRepository::new(&mut conn);
    let t = Tag { description: Some("soon".to_string()), icon: Some("bolt".to_string()), ..tag("urgent", "#ff0000") };
    let id = tags.create_tag(&t).unwrap();
    let all = tags.get_all_tags().unwrap();
    assert_eq!(all.len(), 1);
    assert_eq!(all[0].id, Some(id));
    assert_eq!(all[0].title, "urgent");
    assert_eq!(all[0].color, "#ff0000");
    assert_eq!(all[0].description, Some("soon".to_string()));
    assert_eq!(all[0].icon, Some("bolt".to_string()));
    assert!(all[0].created_at.is_some());
}

#[test]
fn tag_single_column_updates() {
    let mut conn = open();
    let mut tags = TagRepository::new(&mut conn);
    let id = tags.create_tag(&tag("urgent", "#ff0000")).unwrap() as i32;
    assert_eq!(tags.update_title(id, "later").unwrap(), 1);
    assert_eq!(tags.update_color(id, "#00ff00").unwrap(), 1);
    assert_eq!(tags.update_icon(id, Some("clock".to_string())).unwrap(), 1);
    let all = tags.get_all_tags().unwrap();
    assert_eq!(all[0].title, "later");
    assert_eq!(all[0].color, "#00ff00");
    assert_eq!(all[0].icon, Some("clock".to_string()));
    assert_eq!(tags.update_icon(id, None).unwrap(), 1);
    assert_eq!(tags.get_all_tags().unwrap()[0].icon, None);
    assert_eq!(tags.delete_tag(id).unwrap(), 1);
    assert_eq!(tags.get_all_tags().unwrap().len(), 0);
}

#[test]
fn task_round_trip_with_tags() {
    let mut conn = open();
    let a = stored_tag(&mut conn, "a", "#111111");
    let mut tasks = TaskRepository::new(conn);
    let t = task("study", vec![a]);
    let id = tasks.create(&t).unwrap();
    let fetched = tasks.get_by_id(id as i32).unwrap().unwrap();
    assert_eq!(fetched.id as i64, id);
    assert_eq!(fetched.title, t.title);
    assert_eq!(fetched.description, t.description);
    assert_eq!(fetched.status, t.status);
    assert_eq!(fetched.created_at, t.created_at);
    assert_eq!(fetched.due_date, t.due_date);
    assert_eq!(fetched.completed_at, None);
    assert_eq!(fetched.document_id, None);
    assert_eq!(fetched.tags.len(), 1);
    assert_eq!(fetched.tags[0].title, "a");
    assert_eq!(tasks.get_all().unwrap().len(), 1);
}

#[test]
fn failed_task_insert_leaves_no_rows() {
    let conn = open();
    let mut tasks = TaskRepository::new(conn);
    let missing = Tag { id: Some(999), ..tag("ghost", "#000000") };
    let r = tasks.create(&task("study", vec![missing]));
    assert!(matches!(r, Err(RepoError::DatabaseError(_))));
    assert_eq!(tasks.get_all().unwrap().len(), 0);
}

#[test]
fn task_update_replaces_links() {
    let mut conn = open();
    let a = stored_tag(&mut conn, "a", "#111111");
    let b = stored_tag(&mut conn, "b", "#222222");
    let c = stored_tag(&mut conn, "c", "#333333");
    let (ida, idb, idc) = (a.id.unwrap(), b.id.unwrap(), c.id.unwrap());
    let mut tasks = TaskRepository::new(conn);
    let id = tasks.create(&task("study", vec![a, b])).unwrap() as i32;
    let b2 = Tag { id: Some(idb), ..tag("b", "#222222") };
    let updated = Task { id, title: "study more".to_string(), ..task("x", vec![b2, c]) };
    tasks.update(&updated).unwrap();
    let fetched = tasks.get_by_id(id).unwrap().unwrap();
    assert_eq!(fetched.title, "study more");
    assert_eq!(ids(&fetched.tags), vec![idb, idc]);
    assert!(!ids(&fetched.tags).contains(&ida));
}

#[test]
fn task_delete_removes_links() {
    let mut conn = open();
    let a = stored_tag(&mut conn, "a", "#111111");
    let mut tasks = TaskRepository::new(conn);
    let id = tasks.create(&task("study", vec![a])).unwrap() as i32;
    tasks.delete(id).unwrap();
    assert!(tasks.get_by_id(id).unwrap().is_none());
}

#[test]
fn book_delete_removes_links() {
    let mut conn = open();
    let a = stored_tag(&mut conn, "a", "#111111");
    let mut books = BookRepository::new(&mut conn);
    let book = Book { id: 0, title: "SICP".to_string(), author: None, file_path: None, tags: Some(vec![a]) };
    let id = books.create_book(&book).unwrap();
    assert_eq!(books.get_tags_by_book_id(id).unwrap().len(), 1);
    assert_eq!(books.delete_book(id).unwrap(), 1);
    assert_eq!(books.get_tags_by_book_id(id).unwrap().len(), 0);
    assert!(books.get_book_by_id(id).unwrap().is_none());
    drop(books);
    assert_eq!(count(&conn, "book_tags"), 0);
}

#[test]
fn book_update_and_listing() {
    let mut conn = open();
    let mut books = BookRepository::new(&mut conn);
    let id = books.create_book(&Book { id: 0, title: "A".to_string(), author: None, file_path: None, tags: None }).unwrap();
    books.create_book(&Book { id: 0, title: "B".to_string(), author: None, file_path: None, tags: None }).unwrap();
    let n = books.update_book(&Book { id, title: "A2".to_string(), author: Some("Me".to_string()), file_path: None, tags: None }).unwrap();
    assert_eq!(n, 1);
    let all = books.get_all_books().unwrap();
    assert_eq!(all.len(), 2);
    assert_eq!(all[0].title, "A2");
    assert_eq!(all[0].author, Some("Me".to_string()));
    assert_eq!(all[1].title, "B");
    assert_eq!(all[1].tags, Some(Vec::new()));
}

#[test]
fn add_tags_then_duplicate_fails_whole() {
    let mut conn = open();
    let a = stored_tag(&mut conn, "a", "#111111");
    let b = stored_tag(&mut conn, "b", "#222222");
    let mut books = BookRepository::new(&mut conn);
    let id = books.create_book(&Book { id: 0, title: "A".to_string(), author: None, file_path: None, tags: None }).unwrap();
    books.add_tags_to_book(id, vec![Tag { id: a.id, ..tag("a", "#111111") }]).unwrap();
    let r = books.add_tags_to_book(id, vec![b, a]);
    assert!(r.is_err());
    assert_eq!(books.get_tags_by_book_id(id).unwrap().len(), 1);
}

#[test]
fn document_round_trip_and_delete() {
    let mut conn = open();
    let a = stored_tag(&mut conn, "a", "#111111");
    let mut docs = DocumentRepository::new(&conn);
    let d = Document { tags: vec![a], ..document("Notes") };
    let id = docs.create(&d).unwrap() as i32;
    let fetched = docs.get_by_id(id).unwrap().unwrap();
    assert_eq!(fetched.id, id);
    assert_eq!(fetched.title, "Notes");
    assert_eq!(fetched.file_size, 20480);
    assert_eq!(fetched.page_count, 12);
    assert_eq!(fetched.thumbnail_path, d.thumbnail_path);
    assert_eq!(fetched.last_accessed, None);
    assert_eq!(fetched.tags.len(), 1);
    let changed = Document { id, last_accessed: Some("2024-06-01T00:00:00+00:00".to_string()), tags: Vec::new(), ..document("Notes 2") };
    docs.update(&changed).unwrap();
    let again = docs.get_by_id(id).unwrap().unwrap();
    assert_eq!(again, changed);
    docs.delete(id).unwrap();
    assert!(docs.get_by_id(id).unwrap().is_none());
    assert_eq!(docs.get_all().unwrap().len(), 0);
}

#[test]
fn queries_without_schema_are_database_errors() {
    let mut conn = Connection::open_in_memory().unwrap();
    let mut tags = TagRepository::new(&mut conn);
    assert!(matches!(tags.get_all_tags(), Err(RepoError::DatabaseError(_))));
    assert!(matches!(tags.create_tag(&tag("a", "b")), Err(RepoError::DatabaseError(_))));
}

#[test]
fn user_round_trip() {
    let mut conn = open();
    let mut users = UserRepository::new(&mut conn);
    let u = User {
        id: None,
        name: "Ana".to_string(),
        email: "ana@example.com".to_string(),
        status: UserStatus::Inactive,
        created_at: None,
        last_login: None,
    };
    let days = vec![DayOfWeek::Monday];
    let id = users.create_user(&u, days, vec!["backend".to_string()]).unwrap();
    let back = users.get_user_by_id(id).unwrap().unwrap();
    assert_eq!(back.id, Some(id));
    assert_eq!(back.name, "Ana");
    assert_eq!(back.email, "ana@example.com");
    assert_eq!(back.status, UserStatus::Inactive);
    assert!(back.created_at.is_some());
    assert!(back.last_login.is_some());
    assert!(users.get_user_by_id(id + 1).unwrap().is_none());
    assert!(!users.check_if_there_is_active_user_status().unwrap());
}

#[test]
fn task_update_or_delete_of_missing_id_is_invalid() {
    let conn = open();
    let mut tasks = TaskRepository::new(conn);
    let t = Task { id: 41, ..task("nothing", Vec::new()) };
    assert!(matches!(tasks.update(&t), Err(RepoError::InvalidInput(_))));
    assert!(matches!(tasks.delete(41), Err(RepoError::InvalidInput(_))));
    assert_eq!(tasks.get_all().unwrap().len(), 0);
}

#[test]
fn document_delete_of_missing_id_is_invalid() {
    let conn = open();
    let mut docs = DocumentRepository::new(&conn);
    assert!(matches!(docs.delete(3), Err(RepoError::InvalidInput(_))));
    let d = Document { id: 3, ..document("x") };
    assert!(matches!(docs.update(&d), Err(RepoError::InvalidInput(_))));
}

#[test]
fn tag_lookup_by_id() {
    let mut conn = open();
    let mut tags = TagRepository::new(&mut conn);
    let id = tags.create_tag(&Tag { icon: Some("star".to_string()), ..tag("fav", "#ffff00") }).unwrap();
    let t = tags.get_tag_by_id(id as i32).unwrap().unwrap();
    assert_eq!(t.id, Some(id));
    assert_eq!(t.title, "fav");
    assert_eq!(t.color, "#ffff00");
    assert_eq!(t.description, None);
    assert_eq!(t.icon, Some("star".to_string()));
    assert!(tags.get_tag_by_id(id as i32 + 1).unwrap().is_none());
}

#[test]
fn user_id_beyond_32_bits_is_unexpected_and_rolled_back() {
    let mut conn = open();
    conn.execute("INSERT INTO users (id, name, email, status) VALUES (2147483647, 'x', 'x@example.com', 'active')", []).unwrap();
    let mut users = UserRepository::new(&mut conn);
    let u = User {
        id: None,
        name: "Ana".to_string(),
        email: "ana@example.com".to_string(),
        status: UserStatus::Active,
        created_at: None,
        last_login: None,
    };
    let r = users.create_user(&u, vec![DayOfWeek::Monday], Vec::new());
    assert!(matches!(r, Err(RepoError::UnexpectedError(_))));
    drop(users);
    assert_eq!(count(&conn, "users"), 1);
    assert_eq!(count(&conn, "user_available_days"), 0);
}

#[test]
fn deleting_a_tag_unlinks_it_everywhere() {
    let mut conn = open();
    let a = stored_tag(&mut conn, "a", "#111111");
    let tag_id = a.id.unwrap();
    let book_id = {
        let mut books = BookRepository::new(&mut conn);
        books.create_book(&Book { id: 0, title: "T".to_string(), author: None, file_path: None, tags: Some(vec![a]) }).unwrap()
    };
    {
        let mut tags = TagRepository::new(&mut conn);
        assert_eq!(tags.delete_tag(tag_id as i32).unwrap(), 1);
    }
    let books = BookRepository::new(&mut conn);
    assert_eq!(books.get_tags_by_book_id(book_id).unwrap().len(), 0);
    drop(books);
    assert_eq!(count(&conn, "book_tags"), 0);
}

#[test]
fn migration_turns_on_foreign_keys_first() {
    let conn = open();
    let on: i64 = conn.query_row("PRAGMA foreign_keys", [], |r| r.get(0)).unwrap();
    assert_eq!(on, 1);
    let plan = migration_plan();
    assert_eq!(plan.len(), 11);
    assert_eq!(plan[0], SchemaStep::ForeignKeysOn);
    assert_eq!(plan[1], SchemaStep::CreateIfAbsent(SchemaTable::Users));
}

#[test]
fn task_rows_decode_or_report_absence() {
    assert!(matches!(task_of_rows(Vec::new(), 3, Vec::new()), Ok(None)));
    let row = vec![
        SqlValue::Integer(3),
        SqlValue::Text("t".to_string()),
        SqlValue::Null,
        SqlValue::Text("open".to_string()),
        SqlValue::Text("2024-01-01".to_string()),
        SqlValue::Null,
        SqlValue::Null,
        SqlValue::Integer(8),
    ];
    let t = task_of_rows(vec![row], 3, Vec::new()).unwrap().unwrap();
    assert_eq!(t.id, 3);
    assert_eq!(t.status, "open");
    assert_eq!(t.document_id, Some(8));
    let other = vec![
        SqlValue::Integer(4),
        SqlValue::Text("t".to_string()),
        SqlValue::Null,
        SqlValue::Text("open".to_string()),
        SqlValue::Text("2024-01-01".to_string()),
        SqlValue::Null,
        SqlValue::Null,
        SqlValue::Null,
    ];
    assert!(matches!(task_of_rows(vec![other], 3, Vec::new()), Err(RepoError::UnexpectedError(_))));
    let missing_title = vec![
        SqlValue::Integer(3),
        SqlValue::Null,
        SqlValue::Null,
        SqlValue::Text("open".to_string()),
        SqlValue::Text("2024-01-01".to_string()),
        SqlValue::Null,
        SqlValue::Null,
        SqlValue::Null,
    ];
    assert!(matches!(task_of_rows(vec![missing_title], 3, Vec::new()), Err(RepoError::DatabaseError(_))));
}

#[test]
fn merge_keeps_unset_fields() {
    let stored = Book { id: 5, title: "A".to_string(), author: Some("X".to_string()), file_path: None, tags: None };
    let m = merge_book(Some(stored), 5, None, None, Some("/p".to_string())).unwrap();
    assert_eq!(m, Book { id: 5, title: "A".to_string(), author: Some("X".to_string()), file_path: Some("/p".to_string()), tags: None });
    assert!(merge_book(None, 5, None, None, None).is_err());
}

#[test]
fn stamp_keeps_other_fields() {
    let d = document("Notes");
    let s = stamp_access(Some(d), "2024-07-01".to_string()).unwrap();
    assert_eq!(s, Document { last_accessed: Some("2024-07-01".to_string()), ..document("Notes") });
    assert_eq!(stamp_access(None, "x".to_string()), Err("Document not found".to_string()));
}

#[test]
fn substring_search() {
    assert!(contains("rust in action", "in a"));
    assert!(contains("abc", ""));
    assert!(!contains("abc", "abcd"));
    assert!(!contains("abc", "cb"));
    assert!(contains("ünïcode", "nïc"));
}
