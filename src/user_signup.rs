//! Sign-up from a form: a comma-separated list of fields of interest, the
//! days picked, and an optional status.
use vstd::prelude::*;
use vstd::string::*;
use crate::models::{day_of_available, field_name, field_named, status_named, AvailableDay, DayOfWeek, FieldOfInteresting, User, UserStatus};
use crate::text::{lower_of, lowercase, trim, trim_of, with_text};
use crate::user_repository::{is_create_user_ops, UserRepository};

verus! {

/// The parts of `s` between commas, in order; a text without commas is one
/// part, and an empty text is one empty part.
pub open spec fn comma_pieces(s: Seq<char>) -> Seq<Seq<char>>
    decreases s.len(),
{
    if s.len() == 0 {
        seq![Seq::empty()]
    } else {
        let p = comma_pieces(s.drop_last());
        if s.last() == ',' {
            p.push(Seq::empty())
        } else {
            p.update(p.len() - 1, p.last().push(s.last()))
        }
    }
}

/// The field a part names once trimmed and lower-cased, if any.
pub open spec fn field_of_piece(p: Seq<char>) -> Option<FieldOfInteresting> {
    field_named(lower_of(trim_of(p)))
}

/// The fields the parts name, in order; parts that name none are dropped.
pub open spec fn fields_of(pieces: Seq<Seq<char>>) -> Seq<FieldOfInteresting>
    decreases pieces.len(),
{
    if pieces.len() == 0 {
        Seq::empty()
    } else {
        let before = fields_of(pieces.drop_last());
        match field_of_piece(pieces.last()) {
            Some(f) => before.push(f),
            None => before,
        }
    }
}

fn push_field(out: &mut Vec<FieldOfInteresting>, piece: &str)
    ensures
        final(out)@ == match field_of_piece(piece@) {
            Some(f) => old(out)@.push(f),
            None => old(out)@,
        },
{
    let trimmed = trim(piece);
    let lower = lowercase(trimmed);
    match FieldOfInteresting::from_lower(lower.as_str()) {
        Some(f) => out.push(f),
        None => {},
    }
}

/// Parses a comma-separated list of fields of interest: each part is
/// trimmed and read in any letter case; parts that name no field are dropped.
pub fn parse_interesting_fields(s: &str) -> (r: Vec<FieldOfInteresting>)
    ensures
        r@ == fields_of(comma_pieces(s@)),
{
    let n = s.unicode_len();
    let mut out: Vec<FieldOfInteresting> = Vec::new();
    let mut start: usize = 0;
    let mut i: usize = 0;
    let ghost mut done: Seq<Seq<char>> = Seq::empty();
    assert(s@.subrange(0, 0) =~= Seq::<char>::empty());
    while i < n
        invariant
            n == s@.len(),
            start <= i <= n,
            comma_pieces(s@.subrange(0, i as int)) == done.push(s@.subrange(start as int, i as int)),
            out@ == fields_of(done),
        decreases n - i,
    {
        let ghost prefix = s@.subrange(0, i + 1);
        assert(prefix.drop_last() =~= s@.subrange(0, i as int));
        if s.get_char(i) == ',' {
            let piece = s.substring_char(start, i);
            push_field(&mut out, piece);
            proof {
                assert(done.push(piece@).drop_last() =~= done);
                done = done.push(piece@);
                assert(s@.subrange(i + 1, i + 1) =~= Seq::<char>::empty());
            }
            start = i + 1;
        } else {
            proof {
                assert(s@.subrange(start as int, i as int).push(s@[i as int]) =~= s@.subrange(start as int, i + 1));
                assert(done.push(s@.subrange(start as int, i as int)).update(done.len() as int, s@.subrange(start as int, i + 1))
                    =~= done.push(s@.subrange(start as int, i + 1)));
            }
        }
        i = i + 1;
    }
    let piece = s.substring_char(start, n);
    push_field(&mut out, piece);
    proof {
        assert(done.push(piece@).drop_last() =~= done);
        assert(s@.subrange(0, n as int) =~= s@);
    }
    out
}

/// The days picked, as days of the week.
pub fn days_of_week(days: &Vec<AvailableDay>) -> (r: Vec<DayOfWeek>)
    ensures
        r@.len() == days@.len(),
        forall|i: int| 0 <= i < days@.len() ==> #[trigger] r@[i] == day_of_available(days@[i]),
{
    let mut out: Vec<DayOfWeek> = Vec::new();
    let mut i: usize = 0;
    while i < days.len()
        invariant
            i <= days@.len(),
            out@.len() == i,
            forall|k: int| 0 <= k < i ==> #[trigger] out@[k] == day_of_available(days@[k]),
        decreases days@.len() - i,
    {
        out.push(days[i].day_of_week());
        i = i + 1;
    }
    out
}

/// The names of the fields, in order.
pub fn field_names(fields: &Vec<FieldOfInteresting>) -> (r: Vec<String>)
    ensures
        r@.len() == fields@.len(),
        forall|i: int| 0 <= i < fields@.len() ==> (#[trigger] r@[i])@ == field_name(fields@[i]),
{
    let mut out: Vec<String> = Vec::new();
    let mut i: usize = 0;
    while i < fields.len()
        invariant
            i <= fields@.len(),
            out@.len() == i,
            forall|k: int| 0 <= k < i ==> (#[trigger] out@[k])@ == field_name(fields@[k]),
        decreases fields@.len() - i,
    {
        out.push(fields[i].as_str().to_owned());
        i = i + 1;
    }
    out
}

/// The status a sign-up stores: the one given, or active where none is.
pub open spec fn signup_status(status: Option<String>) -> UserStatus {
    match status {
        Some(s) => status_named(s@)->Some_0,
        None => UserStatus::Active,
    }
}

/// The days of the week that the picked days stand for, in order.
pub open spec fn picked_days(days: Seq<AvailableDay>) -> Seq<DayOfWeek> {
    days.map_values(|d: AvailableDay| day_of_available(d))
}

/// `names` are the names of `fields`, in order.
pub open spec fn names_of(names: Seq<String>, fields: Seq<FieldOfInteresting>) -> bool {
    &&& names.len() == fields.len()
    &&& forall|i: int| 0 <= i < fields.len() ==> (#[trigger] names[i])@ == field_name(fields[i])
}

/// Signs a user up: the status defaults to active, the fields of interest
/// are parsed from a comma-separated list, and every picked day is stored,
/// all in one transaction. An unknown status or a missing email is refused
/// before anything is written; on any failure nothing is kept.
pub fn create_user(
    repository: &mut UserRepository,
    name: String,
    email: Option<String>,
    interesting_fields: String,
    available_days: Vec<AvailableDay>,
    status: Option<String>,
) -> (r: Result<String, String>)
    ensures
        status is Some && status_named(status->Some_0@) is None ==> r is Err,
        email is None ==> r is Err,
        r is Err ==> final(repository).history() == old(repository).history(),
        r is Ok ==> final(repository).history().subrange(0, old(repository).history().len() as int) == old(repository).history()
            && exists|uid: i64, names: Seq<String>|
                names_of(names, fields_of(comma_pieces(interesting_fields@)))
                && #[trigger] is_create_user_ops(
                    final(repository).history().subrange(old(repository).history().len() as int, final(repository).history().len() as int),
                    User {
                        id: None,
                        name,
                        email: email->Some_0,
                        status: signup_status(status),
                        created_at: None,
                        last_login: None,
                    },
                    picked_days(available_days@),
                    names,
                    uid,
                ),
{
    let user_status = match &status {
        Some(s) => match UserStatus::from_str(s.as_str()) {
            Some(st) => st,
            None => {
                return Err(with_text("Invalid status provided: ", s.as_str()));
            },
        },
        None => UserStatus::Active,
    };
    let email = match email {
        Some(e) => e,
        None => {
            return Err("An email is required".to_string());
        },
    };
    let fields = parse_interesting_fields(interesting_fields.as_str());
    let days = days_of_week(&available_days);
    assert(days@ =~= picked_days(available_days@));
    let names = field_names(&fields);
    let ghost names_view = names@;
    let user = User { id: None, name, email, status: user_status, created_at: None, last_login: None };
    match repository.create_user(&user, days, names) {
        Ok(uid) => {
            assert(names_of(names_view, fields_of(comma_pieces(interesting_fields@))));
            Ok("User created successfully".to_string())
        },
        Err(err) => Err(with_text("Failed to insert user: ", err.message().as_str())),
    }
}

} // verus!
