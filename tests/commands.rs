use rusqlite::Connection;
use study_studio::book_commands::BookCommands;
use study_studio::document_commands::{filter_by_title, DocumentCommands};
use study_studio::error::{BookCommandError, TagCommandError, UserCommandError};
use study_studio::models::{AvailableDay, Book, DayOfWeek, Document, Tag};
use study_studio::schema::run_migrations;
use study_studio::tag_commands::TagCommands;
use study_studio::user_commands::{parse_days, UserCommands};
use study_studio::user_repository::UserRepository;
use study_studio::user_signup::create_user;

fn open() -> Connection {
    let conn = Connection::open_in_memory().unwrap();
    run_migrations(&conn).unwrap();
    conn
}

fn count(conn: &Connection, table: &str) -> i64 {
    conn.query_row(&format!("SELECT COUNT(*) FROM {}", table), [], |r| r.get(0)).unwrap()
}

fn document(title: &str) -> Document {
    Document {
        id: 0,
        title: title.to_string(),
        original_filename: "f.pdf".to_string(),
        stored_filename: "s.pdf".to_string(),
        file_path: "/d/s.pdf".to_string(),
        file_size: 10,
        mime_type: "application/pdf".to_string(),
        hash: "h".to_string(),
        page_count: 1,
        created_at: "2024-05-01T10:00:00+00:00".to_string(),
        last_accessed: None,
        thumbnail_path: None,
        tags: Vec::new(),
    }
}

#[test]
fn create_tag_then_book_scenario() {
    let mut conn = open();
    let tag_id;
    {
        let mut tags = TagCommands::new(&mut conn);
        assert!(tags.create_tag_method("urgent".to_string(), "#ff0000".to_string(), None).is_ok());
        let all = tags.get_all_tags_method().unwrap();
        tag_id = all[0].id;
    }
    let mut books = BookCommands::new(&mut conn);
    let msg = books.insert_new_book_method("Clean Code".to_string(), Some("Robert Martin".to_string()), None).unwrap();
    assert_eq!(msg, "Book inserted successfully with ID 1");
    let urgent = Tag { id: tag_id, title: "urgent".to_string(), color: "#ff0000".to_string(), description: None, icon: None, created_at: None };
    books.add_tags_to_book_method(1, vec![urgent]).unwrap();
    let all = books.get_all_books_method().unwrap();
    assert_eq!(all.len(), 1);
    assert_eq!(all[0].title, "Clean Code");
    let tags = all[0].tags.as_ref().unwrap();
    assert_eq!(tags.len(), 1);
    assert_eq!(tags[0].title, "urgent");
    let urgent = Tag { id: tag_id, title: "urgent".to_string(), color: "#ff0000".to_string(), description: None, icon: None, created_at: None };
    books.remove_tags_from_book_method(1, vec![urgent]).unwrap();
    assert_eq!(books.get_all_books_method().unwrap()[0].tags, Some(Vec::new()));
}

#[test]
fn create_tag_with_empty_title_is_invalid() {
    let mut conn = open();
    let mut tags = TagCommands::new(&mut conn);
    let r = tags.create_tag_method(String::new(), "#ff0000".to_string(), None);
    assert!(matches!(r, Err(TagCommandError::InvalidInput(_))));
    let r = tags.create_tag_method("urgent".to_string(), String::new(), None);
    assert!(matches!(r, Err(TagCommandError::InvalidInput(_))));
    drop(tags);
    assert_eq!(count(&conn, "tags"), 0);
}

#[test]
fn tag_command_database_error() {
    let mut conn = Connection::open_in_memory().unwrap();
    let mut tags = TagCommands::new(&mut conn);
    let r = tags.create_tag_method("urgent".to_string(), "#ff0000".to_string(), None);
    assert!(matches!(r, Err(TagCommandError::DatabaseError(_))));
}

#[test]
fn update_tag_checks_then_writes() {
    let mut conn = open();
    let mut tags = TagCommands::new(&mut conn);
    tags.create_tag_method("urgent".to_string(), "#ff0000".to_string(), None).unwrap();
    let id = tags.get_all_tags_method().unwrap()[0].id.unwrap() as i32;
    assert!(matches!(tags.update_tag_method(id, None, None, None), Err(TagCommandError::InvalidInput(_))));
    assert!(matches!(
        tags.update_tag_method(id, Some("later".to_string()), Some(String::new()), None),
        Err(TagCommandError::InvalidInput(_))
    ));
    assert_eq!(tags.get_all_tags_method().unwrap()[0].title, "urgent");
    tags.update_tag_method(id, Some("later".to_string()), None, Some(Some("clock".to_string()))).unwrap();
    let t = &tags.get_all_tags_method().unwrap()[0];
    assert_eq!(t.title, "later");
    assert_eq!(t.color, "#ff0000");
    assert_eq!(t.icon, Some("clock".to_string()));
}

#[test]
fn delete_tag_command_reports_missing() {
    let mut conn = open();
    let mut tags = TagCommands::new(&mut conn);
    assert!(matches!(tags.delete_tag_method(7), Err(TagCommandError::InvalidInput(_))));
    tags.create_tag_method("urgent".to_string(), "#ff0000".to_string(), None).unwrap();
    assert_eq!(tags.delete_tag_method(1).unwrap(), "Tag with ID 1 deleted successfully.");
}

#[test]
fn book_commands_refuse_bad_input() {
    let mut conn = open();
    let mut books = BookCommands::new(&mut conn);
    assert!(matches!(books.insert_new_book_method(String::new(), None, None), Err(BookCommandError::InvalidInput(_))));
    assert!(matches!(books.add_tags_to_book_method(1, Vec::new()), Err(BookCommandError::InvalidInput(_))));
    assert!(matches!(books.remove_tags_from_book_method(1, Vec::new()), Err(BookCommandError::InvalidInput(_))));
    assert!(matches!(books.update_book_method(1, Some(String::new()), None, None), Err(BookCommandError::InvalidInput(_))));
    assert!(matches!(books.update_book_method(42, None, None, None), Err(BookCommandError::InvalidInput(_))));
    assert!(matches!(books.delete_book_method(42), Err(BookCommandError::InvalidInput(_))));
    assert_eq!(books.get_all_books_method().unwrap().len(), 0);
}

#[test]
fn book_command_database_error() {
    let mut conn = Connection::open_in_memory().unwrap();
    let mut books = BookCommands::new(&mut conn);
    let r = books.insert_new_book_method("Dune".to_string(), None, None);
    assert!(matches!(r, Err(BookCommandError::DatabaseError(_))));
}

#[test]
fn update_book_keeps_unset_fields() {
    let mut conn = open();
    let mut books = BookCommands::new(&mut conn);
    books.insert_new_book_method("Dune".to_string(), Some("Herbert".to_string()), Some("/b/d.epub".to_string())).unwrap();
    let msg = books.update_book_method(1, Some("Dune Messiah".to_string()), None, None).unwrap();
    assert_eq!(msg, "Book with ID 1 updated successfully");
    let all: Vec<Book> = books.get_all_books_method().unwrap();
    assert_eq!(all[0].title, "Dune Messiah");
    assert_eq!(all[0].author, Some("Herbert".to_string()));
    assert_eq!(all[0].file_path, Some("/b/d.epub".to_string()));
    assert_eq!(books.delete_book_method(1).unwrap(), "Book with ID 1 deleted successfully");
    assert_eq!(books.get_all_books_method().unwrap().len(), 0);
}

#[test]
fn create_user_without_valid_days_writes_nothing() {
    let mut conn = open();
    let mut users = UserCommands::new(&mut conn);
    let r = users.create_user_method(
        "Ana".to_string(),
        "ana@example.com".to_string(),
        "active".to_string(),
        vec!["funday".to_string()],
        vec!["backend".to_string()],
    );
    assert!(matches!(r, Err(UserCommandError::InvalidInput(_))));
    assert_eq!(users.check_if_there_is_active_user_status_method().unwrap(), false);
    drop(users);
    assert_eq!(count(&conn, "users"), 0);
    assert_eq!(count(&conn, "user_interesting_fields"), 0);
}

#[test]
fn create_user_with_unknown_status_is_invalid() {
    let mut conn = open();
    let mut users = UserCommands::new(&mut conn);
    let r = users.create_user_method("Ana".to_string(), "a@b.c".to_string(), "Active".to_string(), vec!["monday".to_string()], Vec::new());
    assert!(matches!(r, Err(UserCommandError::InvalidInput(_))));
}

#[test]
fn create_user_stores_days_and_interests() {
    let mut conn = open();
    let mut users = UserCommands::new(&mut conn);
    let msg = users
        .create_user_method(
            "Ana".to_string(),
            "ana@example.com".to_string(),
            "active".to_string(),
            vec!["Monday".to_string(), "noday".to_string(), "FRIDAY".to_string()],
            vec!["backend".to_string(), "devops".to_string()],
        )
        .unwrap();
    assert_eq!(msg, "User created successfully with ID: 1");
    assert!(users.check_if_there_is_active_user_status_method().unwrap());
    let again = users.create_user_method("Bo".to_string(), "ana@example.com".to_string(), "inactive".to_string(), vec!["monday".to_string()], Vec::new());
    assert!(matches!(again, Err(UserCommandError::DatabaseError(_))));
    drop(users);
    assert_eq!(count(&conn, "users"), 1);
    assert_eq!(count(&conn, "user_available_days"), 2);
    assert_eq!(count(&conn, "user_interesting_fields"), 2);
    let day: String = conn.query_row("SELECT day_of_week FROM user_available_days ORDER BY id DESC LIMIT 1", [], |r| r.get(0)).unwrap();
    assert_eq!(day, "friday");
}

#[test]
fn parse_days_drops_unknown_names() {
    let names = vec!["Sunday".to_string(), "x".to_string(), "tuesday".to_string()];
    assert_eq!(parse_days(&names), vec![DayOfWeek::Sunday, DayOfWeek::Tuesday]);
}

#[test]
fn signup_with_fields_and_days() {
    let mut conn = open();
    let mut repo = UserRepository::new(&mut conn);
    let r = create_user(
        &mut repo,
        "Ana".to_string(),
        Some("ana@example.com".to_string()),
        " Frontend, data-science ,cooking".to_string(),
        vec![AvailableDay::Monday, AvailableDay::Sunday],
        None,
    );
    assert_eq!(r, Ok("User created successfully".to_string()));
    drop(repo);
    assert_eq!(count(&conn, "user_interesting_fields"), 2);
    assert_eq!(count(&conn, "user_available_days"), 2);
    let status: String = conn.query_row("SELECT status FROM users", [], |r| r.get(0)).unwrap();
    assert_eq!(status, "active");
}

#[test]
fn signup_refuses_unknown_status_or_missing_email() {
    let mut conn = open();
    let mut repo = UserRepository::new(&mut conn);
    let r = create_user(&mut repo, "Ana".to_string(), Some("a@b.c".to_string()), String::new(), Vec::new(), Some("busy".to_string()));
    assert!(r.is_err());
    let r = create_user(&mut repo, "Ana".to_string(), None, String::new(), Vec::new(), None);
    assert!(r.is_err());
    drop(repo);
    assert_eq!(count(&conn, "users"), 0);
}

#[test]
fn search_documents_ignores_case() {
    let conn = open();
    let mut docs = DocumentCommands::new(&conn);
    docs.create_document(document("Rust in Action")).unwrap();
    docs.create_document(document("Cooking")).unwrap();
    let found = docs.search_documents_by_title("RUST").unwrap();
    assert_eq!(found.len(), 1);
    assert_eq!(found[0].title, "Rust in Action");
    assert_eq!(docs.list_all_documents().unwrap().len(), 2);
}

#[test]
fn filter_by_title_keeps_order() {
    let all = vec![document("Alpha notes"), document("beta"), document("NOTES on gamma")];
    let found = filter_by_title(all, "Notes");
    let titles: Vec<&str> = found.iter().map(|d| d.title.as_str()).collect();
    assert_eq!(titles, vec!["Alpha notes", "NOTES on gamma"]);
    assert_eq!(filter_by_title(vec![document("beta")], "zzz").len(), 0);
}

#[test]
fn mark_document_as_accessed_sets_time() {
    let conn = open();
    let mut docs = DocumentCommands::new(&conn);
    docs.create_document(document("Notes")).unwrap();
    assert_eq!(docs.mark_document_as_accessed(5), Err("Document not found".to_string()));
    docs.mark_document_as_accessed_at(1, "2024-06-01T00:00:00+00:00".to_string()).unwrap();
    let d = docs.get_document_by_id(1).unwrap().unwrap();
    assert_eq!(d.last_accessed, Some("2024-06-01T00:00:00+00:00".to_string()));
    docs.mark_document_as_accessed(1).unwrap();
    let d = docs.get_document_by_id(1).unwrap().unwrap();
    assert_ne!(d.last_accessed, Some("2024-06-01T00:00:00+00:00".to_string()));
    docs.delete_document(1).unwrap();
    assert!(docs.get_document_by_id(1).unwrap().is_none());
}

#[test]
fn user_command_unexpected_error() {
    let mut conn = open();
    conn.execute("INSERT INTO users (id, name, email, status) VALUES (2147483647, 'x', 'x@example.com', 'active')", []).unwrap();
    let mut users = UserCommands::new(&mut conn);
    let r = users.create_user_method("Ana".to_string(), "ana@example.com".to_string(), "active".to_string(), vec!["monday".to_string()], Vec::new());
    assert!(matches!(r, Err(UserCommandError::UnexpectedError(_))));
}

#[test]
fn signup_rolls_back_when_a_day_insert_fails() {
    let mut conn = open();
    conn.execute_batch(
        "CREATE TRIGGER no_sundays BEFORE INSERT ON user_available_days WHEN NEW.day_of_week = 'sunday' BEGIN SELECT RAISE(ABORT, 'no sundays'); END",
    )
    .unwrap();
    let mut repo = UserRepository::new(&mut conn);
    let r = create_user(
        &mut repo,
        "Ana".to_string(),
        Some("ana@example.com".to_string()),
        "backend".to_string(),
        vec![AvailableDay::Monday, AvailableDay::Sunday],
        None,
    );
    assert!(r.is_err());
    drop(repo);
    assert_eq!(count(&conn, "users"), 0);
    assert_eq!(count(&conn, "user_available_days"), 0);
    assert_eq!(count(&conn, "user_interesting_fields"), 0);
}

#[test]
fn update_tag_of_missing_tag_is_invalid_and_writes_nothing() {
    let mut conn = open();
    let mut tags = TagCommands::new(&mut conn);
    let r = tags.update_tag_method(9, Some("x".to_string()), None, None);
    assert!(matches!(r, Err(TagCommandError::InvalidInput(_))));
}

#[test]
fn update_tag_is_all_or_nothing() {
    let mut conn = open();
    conn.execute_batch(
        "CREATE TRIGGER no_black BEFORE UPDATE OF color ON tags WHEN NEW.color = '#000000' BEGIN SELECT RAISE(ABORT, 'no black'); END",
    )
    .unwrap();
    let mut tags = TagCommands::new(&mut conn);
    tags.create_tag_method("urgent".to_string(), "#ff0000".to_string(), None).unwrap();
    let r = tags.update_tag_method(1, Some("later".to_string()), Some("#000000".to_string()), None);
    assert!(matches!(r, Err(TagCommandError::DatabaseError(_))));
    let t = &tags.get_all_tags_method().unwrap()[0];
    assert_eq!(t.title, "urgent");
    assert_eq!(t.color, "#ff0000");
}
