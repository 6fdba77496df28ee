//! User commands: parsing and input checks in front of the user repository.
use vstd::prelude::*;
use crate::error::UserCommandError;
use crate::models::{day_named, status_named, DayOfWeek, User, UserStatus};
use crate::sql::Op;
use crate::text::{lower_of, with_number, with_text};
use crate::user_repository::{is_create_user_ops, UserRepository};

verus! {

/// The days among `names` that parse, in order; the others are dropped.
pub open spec fn parsed_days(names: Seq<String>) -> Seq<DayOfWeek>
    decreases names.len(),
{
    if names.len() == 0 {
        Seq::empty()
    } else {
        let before = parsed_days(names.drop_last());
        match day_named(lower_of(names.last()@)) {
            Some(d) => before.push(d),
            None => before,
        }
    }
}

/// Parses day names in any letter case, dropping those that are not days.
pub fn parse_days(names: &Vec<String>) -> (r: Vec<DayOfWeek>)
    ensures
        r@ == parsed_days(names@),
{
    let mut out: Vec<DayOfWeek> = Vec::new();
    let mut i: usize = 0;
    while i < names.len()
        invariant
            i <= names@.len(),
            out@ == parsed_days(names@.subrange(0, i as int)),
        decreases names@.len() - i,
    {
        assert(names@.subrange(0, i + 1).drop_last() =~= names@.subrange(0, i as int));
        match DayOfWeek::from_str(names[i].as_str()) {
            Some(d) => out.push(d),
            None => {},
        }
        i = i + 1;
    }
    assert(names@.subrange(0, names@.len() as int) =~= names@);
    out
}

pub struct UserCommands<'a> {
    repository: UserRepository<'a>,
}

impl<'a> UserCommands<'a> {
    /// The writes committed through these commands, in order.
    pub closed spec fn history(&self) -> Seq<Op> {
        self.repository.history()
    }

    pub fn new(conn: &'a mut rusqlite::Connection) -> (r: Self)
        ensures
            r.history() == Seq::<Op>::empty(),
    {
        UserCommands { repository: UserRepository::new(conn) }
    }

    /// Stores a new user with the days that parse and every interest. An
    /// unknown status, or no day that parses, is refused before anything is
    /// written.
    pub fn create_user_method(
        &mut self,
        name: String,
        email: String,
        status: String,
        available_days: Vec<String>,
        interests: Vec<String>,
    ) -> (r: Result<String, UserCommandError>)
        ensures
            status_named(status@) is None ==> r is Err && r->Err_0 is InvalidInput,
            parsed_days(available_days@).len() == 0 ==> r is Err && r->Err_0 is InvalidInput,
            r is Err ==> final(self).history() == old(self).history(),
            status_named(status@) is Some && parsed_days(available_days@).len() > 0 && r is Err ==> !(r->Err_0 is InvalidInput),
            r is Ok ==> final(self).history().subrange(0, old(self).history().len() as int) == old(self).history()
                && exists|uid: i64| is_create_user_ops(
                    final(self).history().subrange(old(self).history().len() as int, final(self).history().len() as int),
                    User {
                        id: None,
                        name,
                        email,
                        status: status_named(status@)->Some_0,
                        created_at: None,
                        last_login: None,
                    },
                    parsed_days(available_days@),
                    interests@,
                    uid,
                ),
    {
        let parsed_status = match UserStatus::from_str(status.as_str()) {
            Some(s) => s,
            None => {
                return Err(UserCommandError::InvalidInput(with_text("Invalid status provided: ", status.as_str())));
            },
        };
        let days = parse_days(&available_days);
        if days.len() == 0 {
            return Err(UserCommandError::InvalidInput("No valid days of the week provided".to_string()));
        }
        let user = User { id: None, name, email, status: parsed_status, created_at: None, last_login: None };
        let ghost interests_view = interests@;
        match self.repository.create_user(&user, days, interests) {
            Ok(user_id) => {
                proof {
                    let n = self.history().len() as int;
                    let k = old(self).history().len() as int;
                    assert(is_create_user_ops(self.history().subrange(k, n), user, parsed_days(available_days@), interests_view, user_id as i64));
                }
                Ok(with_number("User created successfully with ID: ", user_id as i64, ""))
            },
            Err(err) => Err(UserCommandError::from_repo(err)),
        }
    }

    /// Whether some stored user is active.
    pub fn check_if_there_is_active_user_status_method(&mut self) -> (r: Result<bool, UserCommandError>)
        ensures
            final(self).history() == old(self).history(),
            r is Err ==> !(r->Err_0 is InvalidInput),
    {
        match self.repository.check_if_there_is_active_user_status() {
            Ok(found) => Ok(found),
            Err(err) => Err(UserCommandError::from_repo(err)),
        }
    }
}

} // verus!
