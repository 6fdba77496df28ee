//! Users, with the days they are available and the fields they follow.
use vstd::prelude::*;
use crate::error::RepoError;
use crate::codec::{i32_in, take_i32, take_text, text_in};
use crate::models::{day_name, lemma_status_names, status_name, status_named, DayOfWeek, User, UserStatus};
use crate::sql::{fetch, row_fits, text_of, Kind, Op, SqlValue, Stmt, Table, Tx};

verus! {

/// `op` inserts the row of `u`: name, email and the name of its status.
pub open spec fn is_user_insert(op: Op, u: User) -> bool {
    match op {
        Op::Insert(Table::Users, vals) => vals.len() == 3 && vals[0] == SqlValue::Text(u.name)
            && vals[1] == SqlValue::Text(u.email) && match vals[2] {
            SqlValue::Text(s) => s@ == status_name(u.status),
            _ => false,
        },
        _ => false,
    }
}

/// `op` records that user `uid` is available on day `d`.
pub open spec fn is_day_insert(op: Op, uid: i64, d: DayOfWeek) -> bool {
    match op {
        Op::Insert(Table::UserAvailableDays, vals) => vals.len() == 2 && vals[0] == SqlValue::Integer(uid)
            && match vals[1] {
            SqlValue::Text(s) => s@ == day_name(d),
            _ => false,
        },
        _ => false,
    }
}

/// `op` records that user `uid` follows `field`.
pub open spec fn is_field_insert(op: Op, uid: i64, field: String) -> bool {
    op == Op::Insert(Table::UserInterestingFields, seq![SqlValue::Integer(uid), SqlValue::Text(field)])
}

/// `ops` are the writes that store user `u` under `uid`: its row, one row per
/// day, one row per interest, in that order.
pub open spec fn is_create_user_ops(ops: Seq<Op>, u: User, days: Seq<DayOfWeek>, interests: Seq<String>, uid: i64) -> bool {
    let day_ops = ops.subrange(1, 1 + days.len() as int);
    let field_ops = ops.subrange(1 + days.len() as int, ops.len() as int);
    &&& ops.len() == 1 + days.len() + interests.len()
    &&& is_user_insert(ops[0], u)
    &&& forall|i: int| 0 <= i < days.len() ==> #[trigger] is_day_insert(day_ops[i], uid, days[i])
    &&& forall|j: int| 0 <= j < interests.len() ==> #[trigger] is_field_insert(field_ops[j], uid, interests[j])
}

/// The columns a user is selected with: id, name, email, status,
/// created_at, last_login.
pub open spec fn user_kinds() -> Seq<Kind> {
    seq![Kind::Int, Kind::Text, Kind::Text, Kind::Text, Kind::Text, Kind::Text]
}

/// The user a selected row holds; `None` where a required column is NULL or
/// the status is not one of the known names.
pub open spec fn user_from(row: Seq<SqlValue>) -> Option<User> {
    match (i32_in(row[0]), text_in(row[1]), text_in(row[2]), text_in(row[3])) {
        (Some(id), Some(name), Some(email), Some(status)) => match status_named(status@) {
            Some(st) => Some(User {
                id: Some(id),
                name,
                email,
                status: st,
                created_at: text_in(row[4]),
                last_login: text_in(row[5]),
            }),
            None => None,
        },
        _ => None,
    }
}

pub fn decode_user(row: Vec<SqlValue>) -> (r: Option<User>)
    requires
        row@.len() == 6,
    ensures
        r == user_from(row@),
{
    let mut row = row;
    let last_login = take_text(row.pop().unwrap());
    let created_at = take_text(row.pop().unwrap());
    let status = take_text(row.pop().unwrap());
    let email = take_text(row.pop().unwrap());
    let name = take_text(row.pop().unwrap());
    let id = take_i32(row.pop().unwrap());
    match (id, name, email, status) {
        (Some(id), Some(name), Some(email), Some(status)) => match UserStatus::from_str(status.as_str()) {
            Some(st) => Some(User { id: Some(id), name, email, status: st, created_at, last_login }),
            None => None,
        },
        _ => None,
    }
}

/// A stored user reads back as it was written, with the id and timestamps
/// the database gave it.
pub proof fn lemma_user_round_trip(u: User, vals: Seq<SqlValue>, id: i32, created_at: Option<String>, last_login: Option<String>)
    requires
        is_user_insert(Op::Insert(Table::Users, vals), u),
    ensures
        user_from(seq![SqlValue::Integer(id as i64)] + vals + seq![text_of(created_at), text_of(last_login)]) == Some(User {
            id: Some(id),
            created_at,
            last_login,
            ..u
        }),
{
    let row = seq![SqlValue::Integer(id as i64)] + vals + seq![text_of(created_at), text_of(last_login)];
    assert(row[1] == vals[0]);
    assert(row[2] == vals[1]);
    assert(row[3] == vals[2]);
    assert(row[4] == text_of(created_at));
    assert(row[5] == text_of(last_login));
    lemma_status_names();
    assert(status_named(status_name(u.status)) == Some(u.status));
}

/// The user that the rows selected for `id` hold: none where there is no
/// row, else the first row decoded, which must carry `id`.
pub fn user_of_rows(rows: Vec<Vec<SqlValue>>, id: i32) -> (r: Result<Option<User>, RepoError>)
    requires
        forall|i: int| 0 <= i < rows@.len() ==> #[trigger] row_fits(rows@[i]@, user_kinds()),
    ensures
        rows@.len() == 0 ==> r == Ok::<Option<User>, RepoError>(None),
        rows@.len() > 0 && user_from(rows@[0]@) is None ==> r is Err && r->Err_0 is DatabaseError,
        rows@.len() > 0 && user_from(rows@[0]@) is Some ==> if user_from(rows@[0]@)->Some_0.id == Some(id) {
            r == Ok::<Option<User>, RepoError>(user_from(rows@[0]@))
        } else {
            r is Err && r->Err_0 is UnexpectedError
        },
{
    let mut rows = rows;
    if rows.len() == 0 {
        return Ok(None);
    }
    let row = rows.remove(0);
    assert(row_fits(row@, user_kinds()));
    match decode_user(row) {
        Some(u) => if u.id == Some(id) {
            Ok(Some(u))
        } else {
            Err(RepoError::UnexpectedError("the user read back has another id".to_string()))
        },
        None => Err(RepoError::DatabaseError("a stored user lacks a required column or has an unknown status".to_string())),
    }
}

pub struct UserRepository<'a> {
    conn: &'a mut rusqlite::Connection,
    history: Ghost<Seq<Op>>,
}

impl<'a> UserRepository<'a> {
    /// The writes this repository has committed, in order.
    pub closed spec fn history(&self) -> Seq<Op> {
        self.history@
    }

    pub fn new(conn: &'a mut rusqlite::Connection) -> (r: Self)
        ensures
            r.history() == Seq::<Op>::empty(),
    {
        UserRepository { conn, history: Ghost(Seq::empty()) }
    }

    /// Stores a user (its id and timestamps are ignored; the database stamps
    /// the creation and last login times) with its days and interests, in one
    /// transaction; returns the new id. On failure nothing is kept.
    pub fn create_user(&mut self, user: &User, available_days: Vec<DayOfWeek>, interests: Vec<String>) -> (r: Result<i32, RepoError>)
        ensures
            r is Ok ==> final(self).history().subrange(0, old(self).history().len() as int) == old(self).history()
                && is_create_user_ops(
                    final(self).history().subrange(old(self).history().len() as int, final(self).history().len() as int),
                    *user, available_days@, interests@, r->Ok_0 as i64),
            r is Err ==> final(self).history() == old(self).history() && !(r->Err_0 is InvalidInput),
    {
        let mut tx = Tx::begin(self.conn)?;
        let values = vec![
            SqlValue::Text(user.name.clone()),
            SqlValue::Text(user.email.clone()),
            SqlValue::Text(user.status.as_str().to_owned()),
        ];
        tx.run(Stmt::Insert { table: Table::Users, values })?;
        let id = tx.last_insert_id();
        if id < i32::MIN as i64 || id > i32::MAX as i64 {
            return Err(RepoError::UnexpectedError("the new user id does not fit in 32 bits".to_string()));
        }
        let ghost first = tx.ran().last();
        assert(is_user_insert(first, *user));
        let ghost start = tx.ran().drop_last();
        let mut i: usize = 0;
        while i < available_days.len()
            invariant
                i <= available_days@.len(),
                self.history@ == old(self).history@,
                tx.ran().len() == start.len() + 1 + i,
                tx.ran().subrange(0, start.len() as int) == start,
                tx.ran()[start.len() as int] == first,
                forall|k: int| 0 <= k < i ==> #[trigger] is_day_insert(tx.ran()[start.len() + 1 + k], id, available_days@[k]),
            decreases available_days@.len() - i,
        {
            let ghost before = tx.ran();
            let day = available_days[i];
            tx.run(Stmt::Insert {
                table: Table::UserAvailableDays,
                values: vec![SqlValue::Integer(id), SqlValue::Text(day.as_str().to_owned())],
            })?;
            assert(tx.ran().subrange(0, start.len() as int) =~= before.subrange(0, start.len() as int));
            assert forall|k: int| 0 <= k < i + 1 implies #[trigger] is_day_insert(tx.ran()[start.len() + 1 + k], id, available_days@[k]) by {
                if k < i {
                    assert(tx.ran()[start.len() + 1 + k] == before[start.len() + 1 + k]);
                }
            }
            i = i + 1;
        }
        let mut j: usize = 0;
        while j < interests.len()
            invariant
                j <= interests@.len(),
                self.history@ == old(self).history@,
                tx.ran().len() == start.len() + 1 + available_days@.len() + j,
                tx.ran().subrange(0, start.len() as int) == start,
                tx.ran()[start.len() as int] == first,
                forall|k: int| 0 <= k < available_days@.len() ==> #[trigger] is_day_insert(tx.ran()[start.len() + 1 + k], id, available_days@[k]),
                forall|k: int| 0 <= k < j ==> #[trigger] is_field_insert(tx.ran()[start.len() + 1 + available_days@.len() + k], id, interests@[k]),
            decreases interests@.len() - j,
        {
            let ghost before = tx.ran();
            tx.run(Stmt::Insert {
                table: Table::UserInterestingFields,
                values: vec![SqlValue::Integer(id), SqlValue::Text(interests[j].clone())],
            })?;
            assert(tx.ran().subrange(0, start.len() as int) =~= before.subrange(0, start.len() as int));
            assert(seq![SqlValue::Integer(id), SqlValue::Text(interests[j as int])] =~= seq![SqlValue::Integer(id), SqlValue::Text(interests@[j as int])]);
            assert forall|k: int| 0 <= k < available_days@.len() implies #[trigger] is_day_insert(tx.ran()[start.len() + 1 + k], id, available_days@[k]) by {
                assert(tx.ran()[start.len() + 1 + k] == before[start.len() + 1 + k]);
            }
            assert forall|k: int| 0 <= k < j + 1 implies #[trigger] is_field_insert(tx.ran()[start.len() + 1 + available_days@.len() + k], id, interests@[k]) by {
                if k < j {
                    assert(tx.ran()[start.len() + 1 + available_days@.len() + k] == before[start.len() + 1 + available_days@.len() + k]);
                }
            }
            j = j + 1;
        }
        let ghost ran = tx.ran();
        tx.commit()?;
        self.history = Ghost(self.history@ + ran);
        proof {
            let h = self.history@;
            let old_len = old(self).history().len() as int;
            assert(start == Seq::<Op>::empty());
            let ops = h.subrange(old_len, h.len() as int);
            assert(ops =~= ran);
            assert(h.subrange(0, old_len) =~= old(self).history());
            let n = available_days@.len() as int;
            assert forall|k: int| 0 <= k < n implies #[trigger] is_day_insert(ops.subrange(1, 1 + n)[k], id, available_days@[k]) by {
                assert(ops.subrange(1, 1 + n)[k] == ran[1 + k]);
            }
            assert forall|k: int| 0 <= k < interests@.len() implies #[trigger] is_field_insert(ops.subrange(1 + n, ops.len() as int)[k], id, interests@[k]) by {
                assert(ops.subrange(1 + n, ops.len() as int)[k] == ran[1 + n + k]);
            }
        }
        Ok(id as i32)
    }

    /// The user with this id; `None` where there is none.
    pub fn get_user_by_id(&self, id: i32) -> (r: Result<Option<User>, RepoError>)
        ensures
            r is Ok && r->Ok_0 is Some ==> r->Ok_0->Some_0.id == Some(id),
            r is Err ==> !(r->Err_0 is InvalidInput),
    {
        let kinds = vec![Kind::Int, Kind::Text, Kind::Text, Kind::Text, Kind::Text, Kind::Text];
        assert(kinds@ =~= user_kinds());
        let rows = fetch(
            self.conn,
            "SELECT id, name, email, status, created_at, last_login FROM users WHERE id = ?1",
            vec![SqlValue::Integer(id as i64)],
            &kinds,
        )?;
        user_of_rows(rows, id)
    }

    /// Whether some stored user is active.
    pub fn check_if_there_is_active_user_status(&mut self) -> (r: Result<bool, RepoError>)
        ensures
            final(self).history() == old(self).history(),
            r is Err ==> !(r->Err_0 is InvalidInput),
    {
        let kinds = vec![Kind::Int];
        let mut rows = fetch(self.conn, "SELECT EXISTS(SELECT 1 FROM users WHERE status = 'active')", Vec::new(), &kinds)?;
        if rows.len() == 0 {
            return Err(RepoError::UnexpectedError("the existence query returned no row".to_string()));
        }
        let mut row = rows.remove(0);
        assert(row_fits(row@, kinds@));
        match row.pop() {
            Some(SqlValue::Integer(v)) => Ok(v != 0),
            _ => Err(RepoError::UnexpectedError("the existence query returned no value".to_string())),
        }
    }
}

} // verus!
