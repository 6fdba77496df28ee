//! The domain entities and the enumerations they use.
use vstd::prelude::*;
use crate::text::{lowercase, lower_of, str_eq};

verus! {

#[derive(Clone, Copy, PartialEq, Eq, Structural, Debug)]
pub enum UserStatus {
    Active,
    Inactive,
}

pub open spec fn status_named(s: Seq<char>) -> Option<UserStatus> {
    if s == "active"@ {
        Some(UserStatus::Active)
    } else if s == "inactive"@ {
        Some(UserStatus::Inactive)
    } else {
        None
    }
}

pub open spec fn status_name(st: UserStatus) -> Seq<char> {
    match st {
        UserStatus::Active => "active"@,
        UserStatus::Inactive => "inactive"@,
    }
}

/// Each status reads back from its name.
pub proof fn lemma_status_names()
    ensures
        forall|st: UserStatus| #[trigger] status_named(status_name(st)) == Some(st),
{
    reveal_strlit("active");
    reveal_strlit("inactive");
    assert("active"@.len() == 6);
    assert("inactive"@.len() == 8);
    assert("active"@ != "inactive"@);
}

impl UserStatus {
    /// Parses a stored status; only the exact lower-case names are accepted.
    pub fn from_str(status: &str) -> (r: Option<Self>)
        ensures
            r == status_named(status@),
    {
        if str_eq(status, "active") {
            Some(UserStatus::Active)
        } else if str_eq(status, "inactive") {
            Some(UserStatus::Inactive)
        } else {
            None
        }
    }

    pub fn as_str(&self) -> (r: &str)
        ensures
            r@ == status_name(*self),
    {
        match self {
            UserStatus::Active => "active",
            UserStatus::Inactive => "inactive",
        }
    }
}

#[derive(Clone, Copy, PartialEq, Eq, Structural, Debug)]
pub enum DayOfWeek {
    Monday,
    Tuesday,
    Wednesday,
    Thursday,
    Friday,
    Saturday,
    Sunday,
}

pub open spec fn day_named(s: Seq<char>) -> Option<DayOfWeek> {
    if s == "monday"@ {
        Some(DayOfWeek::Monday)
    } else if s == "tuesday"@ {
        Some(DayOfWeek::Tuesday)
    } else if s == "wednesday"@ {
        Some(DayOfWeek::Wednesday)
    } else if s == "thursday"@ {
        Some(DayOfWeek::Thursday)
    } else if s == "friday"@ {
        Some(DayOfWeek::Friday)
    } else if s == "saturday"@ {
        Some(DayOfWeek::Saturday)
    } else if s == "sunday"@ {
        Some(DayOfWeek::Sunday)
    } else {
        None
    }
}

pub open spec fn day_name(d: DayOfWeek) -> Seq<char> {
    match d {
        DayOfWeek::Monday => "monday"@,
        DayOfWeek::Tuesday => "tuesday"@,
        DayOfWeek::Wednesday => "wednesday"@,
        DayOfWeek::Thursday => "thursday"@,
        DayOfWeek::Friday => "friday"@,
        DayOfWeek::Saturday => "saturday"@,
        DayOfWeek::Sunday => "sunday"@,
    }
}

impl DayOfWeek {
    /// Parses a day name in any letter case.
    pub fn from_str(day: &str) -> (r: Option<Self>)
        ensures
            r == day_named(lower_of(day@)),
    {
        let lower = lowercase(day);
        Self::from_lower(lower.as_str())
    }

    /// Parses a day name already in lower case.
    pub fn from_lower(day: &str) -> (r: Option<Self>)
        ensures
            r == day_named(day@),
    {
        if str_eq(day, "monday") {
            Some(DayOfWeek::Monday)
        } else if str_eq(day, "tuesday") {
            Some(DayOfWeek::Tuesday)
        } else if str_eq(day, "wednesday") {
            Some(DayOfWeek::Wednesday)
        } else if str_eq(day, "thursday") {
            Some(DayOfWeek::Thursday)
        } else if str_eq(day, "friday") {
            Some(DayOfWeek::Friday)
        } else if str_eq(day, "saturday") {
            Some(DayOfWeek::Saturday)
        } else if str_eq(day, "sunday") {
            Some(DayOfWeek::Sunday)
        } else {
            None
        }
    }

    pub fn as_str(&self) -> (r: &str)
        ensures
            r@ == day_name(*self),
    {
        match self {
            DayOfWeek::Monday => "monday",
            DayOfWeek::Tuesday => "tuesday",
            DayOfWeek::Wednesday => "wednesday",
            DayOfWeek::Thursday => "thursday",
            DayOfWeek::Friday => "friday",
            DayOfWeek::Saturday => "saturday",
            DayOfWeek::Sunday => "sunday",
        }
    }
}

/// The days a user can pick when signing up.
#[derive(Clone, Copy, PartialEq, Eq, Structural, Debug)]
pub enum AvailableDay {
    Monday,
    Tuesday,
    Wednesday,
    Thursday,
    Friday,
    Saturday,
    Sunday,
}

pub open spec fn day_of_available(d: AvailableDay) -> DayOfWeek {
    match d {
        AvailableDay::Monday => DayOfWeek::Monday,
        AvailableDay::Tuesday => DayOfWeek::Tuesday,
        AvailableDay::Wednesday => DayOfWeek::Wednesday,
        AvailableDay::Thursday => DayOfWeek::Thursday,
        AvailableDay::Friday => DayOfWeek::Friday,
        AvailableDay::Saturday => DayOfWeek::Saturday,
        AvailableDay::Sunday => DayOfWeek::Sunday,
    }
}

impl AvailableDay {
    pub fn day_of_week(&self) -> (r: DayOfWeek)
        ensures
            r == day_of_available(*self),
    {
        match self {
            AvailableDay::Monday => DayOfWeek::Monday,
            AvailableDay::Tuesday => DayOfWeek::Tuesday,
            AvailableDay::Wednesday => DayOfWeek::Wednesday,
            AvailableDay::Thursday => DayOfWeek::Thursday,
            AvailableDay::Friday => DayOfWeek::Friday,
            AvailableDay::Saturday => DayOfWeek::Saturday,
            AvailableDay::Sunday => DayOfWeek::Sunday,
        }
    }
}

#[derive(Clone, Copy, PartialEq, Eq, Structural, Debug)]
pub enum FieldOfInteresting {
    Frontend,
    Backend,
    Mobile,
    DataScience,
    DataEngineering,
    DevOps,
}

pub open spec fn field_named(s: Seq<char>) -> Option<FieldOfInteresting> {
    if s == "frontend"@ {
        Some(FieldOfInteresting::Frontend)
    } else if s == "backend"@ {
        Some(FieldOfInteresting::Backend)
    } else if s == "mobile"@ {
        Some(FieldOfInteresting::Mobile)
    } else if s == "data-science"@ {
        Some(FieldOfInteresting::DataScience)
    } else if s == "data-engineering"@ {
        Some(FieldOfInteresting::DataEngineering)
    } else if s == "devops"@ {
        Some(FieldOfInteresting::DevOps)
    } else {
        None
    }
}

pub open spec fn field_name(f: FieldOfInteresting) -> Seq<char> {
    match f {
        FieldOfInteresting::Frontend => "frontend"@,
        FieldOfInteresting::Backend => "backend"@,
        FieldOfInteresting::Mobile => "mobile"@,
        FieldOfInteresting::DataScience => "data-science"@,
        FieldOfInteresting::DataEngineering => "data-engineering"@,
        FieldOfInteresting::DevOps => "devops"@,
    }
}

impl FieldOfInteresting {
    /// Parses a field name in any letter case.
    pub fn from_name(name: &str) -> (r: Option<Self>)
        ensures
            r == field_named(lower_of(name@)),
    {
        let lower = lowercase(name);
        Self::from_lower(lower.as_str())
    }

    /// Parses a field name already in lower case.
    pub fn from_lower(name: &str) -> (r: Option<Self>)
        ensures
            r == field_named(name@),
    {
        if str_eq(name, "frontend") {
            Some(FieldOfInteresting::Frontend)
        } else if str_eq(name, "backend") {
            Some(FieldOfInteresting::Backend)
        } else if str_eq(name, "mobile") {
            Some(FieldOfInteresting::Mobile)
        } else if str_eq(name, "data-science") {
            Some(FieldOfInteresting::DataScience)
        } else if str_eq(name, "data-engineering") {
            Some(FieldOfInteresting::DataEngineering)
        } else if str_eq(name, "devops") {
            Some(FieldOfInteresting::DevOps)
        } else {
            None
        }
    }

    pub fn as_str(&self) -> (r: &str)
        ensures
            r@ == field_name(*self),
    {
        match self {
            FieldOfInteresting::Frontend => "frontend",
            FieldOfInteresting::Backend => "backend",
            FieldOfInteresting::Mobile => "mobile",
            FieldOfInteresting::DataScience => "data-science",
            FieldOfInteresting::DataEngineering => "data-engineering",
            FieldOfInteresting::DevOps => "devops",
        }
    }
}

#[derive(Debug)]
pub struct User {
    pub id: Option<i32>,
    pub name: String,
    pub email: String,
    pub status: UserStatus,
    pub created_at: Option<String>,
    pub last_login: Option<String>,
}

/// A day on which a user is available, as stored.
#[derive(Debug)]
pub struct UserAvailableDay {
    pub id: Option<i32>,
    pub user_id: i32,
    pub day_of_week: DayOfWeek,
}

/// A field that a user is interested in.
#[derive(Debug)]
pub struct UserInterestingField {
    pub user_id: i32,
    pub field: FieldOfInteresting,
}

/// A free-form interest of a user, as stored.
#[derive(Debug)]
pub struct UserInterest {
    pub id: Option<i32>,
    pub user_id: i32,
    pub interest: String,
}

/// A label shared by books, tasks and documents. `id` is `None` before the
/// tag is stored; `created_at` is set by the database.
#[derive(Debug, PartialEq)]
pub struct Tag {
    pub id: Option<i64>,
    pub title: String,
    pub color: String,
    pub description: Option<String>,
    pub icon: Option<String>,
    pub created_at: Option<String>,
}

#[derive(Debug, PartialEq)]
pub struct Book {
    pub id: i64,
    pub title: String,
    pub author: Option<String>,
    pub file_path: Option<String>,
    pub tags: Option<Vec<Tag>>,
}

#[derive(Debug, PartialEq)]
pub struct Task {
    pub id: i32,
    pub title: String,
    pub description: Option<String>,
    pub status: String,
    pub created_at: String,
    pub due_date: Option<String>,
    pub completed_at: Option<String>,
    pub document_id: Option<i64>,
    pub tags: Vec<Tag>,
}

/// A stored file. Timestamps are ISO-8601 text.
#[derive(Debug, PartialEq)]
pub struct Document {
    pub id: i32,
    pub title: String,
    pub original_filename: String,
    pub stored_filename: String,
    pub file_path: String,
    pub file_size: i64,
    pub mime_type: String,
    pub hash: String,
    pub page_count: i32,
    pub created_at: String,
    pub last_accessed: Option<String>,
    pub thumbnail_path: Option<String>,
    pub tags: Vec<Tag>,
}

} // verus!
