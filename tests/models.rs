use study_studio::models::{AvailableDay, DayOfWeek, FieldOfInteresting, UserStatus};
use study_studio::user_signup::parse_interesting_fields;

#[test]
fn user_status_names() {
    assert_eq!(UserStatus::from_str("active"), Some(UserStatus::Active));
    assert_eq!(UserStatus::from_str("inactive"), Some(UserStatus::Inactive));
    assert_eq!(UserStatus::from_str("Active"), None);
    assert_eq!(UserStatus::from_str(""), None);
    assert_eq!(UserStatus::Active.as_str(), "active");
    assert_eq!(UserStatus::from_str(UserStatus::Inactive.as_str()), Some(UserStatus::Inactive));
}

#[test]
fn day_names_in_any_case() {
    assert_eq!(DayOfWeek::from_str("MONDAY"), Some(DayOfWeek::Monday));
    assert_eq!(DayOfWeek::from_str("Wednesday"), Some(DayOfWeek::Wednesday));
    assert_eq!(DayOfWeek::from_str("sun"), None);
    assert_eq!(DayOfWeek::from_lower("SATURDAY"), None);
    assert_eq!(DayOfWeek::from_lower("saturday"), Some(DayOfWeek::Saturday));
    assert_eq!(DayOfWeek::Thursday.as_str(), "thursday");
    assert_eq!(AvailableDay::Friday.day_of_week(), DayOfWeek::Friday);
}

#[test]
fn field_names_in_any_case() {
    assert_eq!(FieldOfInteresting::from_name("Data-Science"), Some(FieldOfInteresting::DataScience));
    assert_eq!(FieldOfInteresting::from_name("DEVOPS"), Some(FieldOfInteresting::DevOps));
    assert_eq!(FieldOfInteresting::from_name("data science"), None);
    assert_eq!(FieldOfInteresting::DataEngineering.as_str(), "data-engineering");
}

#[test]
fn interesting_fields_from_a_list() {
    assert_eq!(
        parse_interesting_fields(" Frontend, backend ,unknown,DEVOPS"),
        vec![FieldOfInteresting::Frontend, FieldOfInteresting::Backend, FieldOfInteresting::DevOps]
    );
    assert_eq!(parse_interesting_fields(""), Vec::<FieldOfInteresting>::new());
    assert_eq!(parse_interesting_fields("mobile,,mobile"), vec![FieldOfInteresting::Mobile, FieldOfInteresting::Mobile]);
}
