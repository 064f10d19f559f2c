//! Users: lookup by id, contacts, and login with an authentication key.
use vstd::prelude::*;
use crate::text::{append_decimal, decimal};
use crate::v1::{query_failed_error, ApiError, ApiErrorView, StatusCode};

verus! {

/// Seconds for which an authentication token stays valid after login.
pub const AUTH_TOKEN_TTL_SECS: i64 = 10;

/// The relation of a user to the one whose contacts are listed.
#[derive(Clone, Copy, Debug, PartialEq, Eq, Structural)]
pub enum Relation {
    Blocked,
    Contact,
    Fav,
}

/// The relation that the database's `user_relation` value `text` names.
pub open spec fn relation_from_text(text: Seq<char>) -> Option<Relation> {
    if text == "fav"@ {
        Some(Relation::Fav)
    } else if text == "contact"@ {
        Some(Relation::Contact)
    } else if text == "blocked"@ {
        Some(Relation::Blocked)
    } else {
        None
    }
}

impl Relation {
    /// Reads a relation as the database writes it: `fav`, `contact` or
    /// `blocked`; `None` for any other text.
    pub fn from_sql_text(text: &str) -> (r: Option<Relation>)
        ensures
            r == relation_from_text(text@),
    {
        let t = String::from_str(text);
        if t == String::from_str("fav") {
            Some(Relation::Fav)
        } else if t == String::from_str("contact") {
            Some(Relation::Contact)
        } else if t == String::from_str("blocked") {
            Some(Relation::Blocked)
        } else {
            None
        }
    }
}

#[derive(Debug)]
pub struct User {
    pub id: i64,
    pub username: String,
    pub relation: Option<Relation>,
}

pub struct UserView {
    pub id: i64,
    pub username: Seq<char>,
    pub relation: Option<Relation>,
}

impl View for User {
    type V = UserView;

    open spec fn view(&self) -> UserView {
        UserView { id: self.id, username: self.username@, relation: self.relation }
    }
}

/// The answer to a successful login.
#[derive(Debug)]
pub struct LoginResponse {
    pub auth_token: String,
    pub valid_until: i64,
    pub me: User,
}

pub struct LoginResponseView {
    pub auth_token: Seq<char>,
    pub valid_until: i64,
    pub me: UserView,
}

impl View for LoginResponse {
    type V = LoginResponseView;

    open spec fn view(&self) -> LoginResponseView {
        LoginResponseView { auth_token: self.auth_token@, valid_until: self.valid_until, me: self.me@ }
    }
}

pub open spec fn user_not_found_error(id: i64) -> ApiErrorView {
    ApiErrorView {
        status: StatusCode::NotFound,
        desc: "No user found with id '"@ + decimal(id as int) + "'"@,
        details: None,
    }
}

pub open spec fn username_not_found_error(username: Seq<char>) -> ApiErrorView {
    ApiErrorView {
        status: StatusCode::NotFound,
        desc: "No user found with username '"@ + username + "'"@,
        details: None,
    }
}

pub open spec fn invalid_auth_key_error() -> ApiErrorView {
    ApiErrorView { status: StatusCode::Forbidden, desc: "Invalid auth_key!"@, details: None }
}

/// What a login answers, given the rows of the login query (for each user
/// with the name: the id, and whether the key matched one of theirs) and
/// the clock reading `now` in seconds.
pub open spec fn login_outcome(
    username: Seq<char>,
    rows: Result<Seq<(i64, bool)>, Seq<char>>,
    now: int,
) -> Result<LoginResponseView, ApiErrorView> {
    match rows {
        Err(d) => Err(query_failed_error(d)),
        Ok(v) => if v.len() == 0 {
            Err(username_not_found_error(username))
        } else if v[0].1 {
            Ok(
                LoginResponseView {
                    auth_token: "Cake"@,
                    valid_until: (now + AUTH_TOKEN_TTL_SECS) as i64,
                    me: UserView { id: v[0].0, username, relation: None },
                },
            )
        } else {
            Err(invalid_auth_key_error())
        },
    }
}

/// A login succeeds exactly when the query found a user with the name and
/// the key matched one of theirs; the answer then names that user by
/// exactly the name given, whatever its length, and carries a token valid
/// until `AUTH_TOKEN_TTL_SECS` seconds after the clock reading. It fails with
/// NotFound when no user has the name, with Forbidden when the key did not
/// match, and with the query's own error when the query failed.
pub proof fn lemma_login_answers(
    username: Seq<char>,
    rows: Result<Seq<(i64, bool)>, Seq<char>>,
    now: int,
)
    ensures
        login_outcome(username, rows, now) is Ok <==> (rows matches Ok(v) && v.len() > 0
            && v[0].1),
        login_outcome(username, rows, now) matches Ok(resp) ==> {
            &&& resp.me.username == username
            &&& resp.me.username.len() == username.len()
            &&& rows matches Ok(v) && resp.me.id == v[0].0
            &&& resp.me.relation is None
            &&& resp.auth_token == "Cake"@
            &&& (i64::MIN <= now + AUTH_TOKEN_TTL_SECS <= i64::MAX ==> resp.valid_until == now
                + AUTH_TOKEN_TTL_SECS)
        },
        rows matches Err(d) ==> login_outcome(username, rows, now) == Err::<
            LoginResponseView,
            ApiErrorView,
        >(query_failed_error(d)),
        rows matches Ok(v) && v.len() == 0 ==> (login_outcome(username, rows, now) matches Err(e)
            && e.status == StatusCode::NotFound && e.desc == "No user found with username '"@
            + username + "'"@),
        rows matches Ok(v) && v.len() > 0 && !v[0].1 ==> (login_outcome(username, rows, now)
            matches Err(e) && e.status == StatusCode::Forbidden),
{
}

/// Whether a login with these query rows issues a token, and so reads the clock.
pub open spec fn login_issues_token(rows: Result<Seq<(i64, bool)>, Seq<char>>) -> bool {
    rows matches Ok(v) && v.len() > 0 && v[0].1
}

pub open spec fn rows_view<T>(rows: Result<Vec<T>, String>) -> Result<Seq<T>, Seq<char>> {
    match rows {
        Ok(v) => Ok(v@),
        Err(d) => Err(d@),
    }
}

pub open spec fn result_view<T: View>(r: Result<T, ApiError>) -> Result<T::V, ApiErrorView> {
    match r {
        Ok(v) => Ok(v@),
        Err(e) => Err(e@),
    }
}

pub open spec fn answer_view(r: Option<Result<LoginResponse, ApiError>>) -> Option<
    Result<LoginResponseView, ApiErrorView>,
> {
    match r {
        Some(res) => Some(result_view(res)),
        None => None,
    }
}

/// What a login answers at clock reading `now`: nothing where it issues a
/// token whose expiry does not fit in an `i64`, else `login_outcome`.
pub open spec fn login_answer(
    username: Seq<char>,
    rows: Result<Seq<(i64, bool)>, Seq<char>>,
    now: i64,
    answer: Option<Result<LoginResponseView, ApiErrorView>>,
) -> bool {
    &&& (answer is None) == (login_issues_token(rows) && now > i64::MAX - AUTH_TOKEN_TTL_SECS)
    &&& answer matches Some(res) ==> res == login_outcome(username, rows, now as int)
}

/// The current time, in seconds since 1970-01-01 00:00:00 UTC, from the
/// `time` crate's `get_time`. Nothing is stated of the result: it is what
/// the system clock reads.
#[verifier::external_body]
fn clock_seconds() -> (r: i64) {
    time::get_time().sec
}

impl User {
    /// The user with id `id`, from the rows (id, username) of the query for it.
    pub fn get_by_id(id: i64, rows: Result<Vec<(i64, String)>, String>) -> (r: Result<User, ApiError>)
        ensures
            match rows {
                Err(d) => r matches Err(e) && e@ == query_failed_error(d@),
                Ok(v) => if v.len() > 0 {
                    r matches Ok(u) && u@ == (UserView {
                        id: v@[0].0,
                        username: v@[0].1@,
                        relation: None,
                    })
                } else {
                    r matches Err(e) && e@ == user_not_found_error(id)
                },
            },
    {
        match rows {
            Err(d) => Err(ApiError::query_failed(d)),
            Ok(mut v) => {
                if v.len() > 0 {
                    let (uid, username) = v.remove(0);
                    Ok(User { id: uid, username, relation: None })
                } else {
                    let mut desc = String::from_str("No user found with id '");
                    append_decimal(&mut desc, id);
                    desc.append("'");
                    Err(ApiError::new(StatusCode::NotFound, desc))
                }
            },
        }
    }

    /// The contacts of a user, from the rows (id, username, relation) of the
    /// query for them, in the order of the rows.
    pub fn contacts(rows: Result<Vec<(i64, String, Relation)>, String>) -> (r: Result<Vec<User>, ApiError>)
        ensures
            match rows {
                Err(d) => r matches Err(e) && e@ == query_failed_error(d@),
                Ok(v) => r matches Ok(us) && us@.len() == v@.len() && forall|i: int|
                    0 <= i < v@.len() ==> #[trigger] us@[i]@ == (UserView {
                        id: v@[i].0,
                        username: v@[i].1@,
                        relation: Some(v@[i].2),
                    }),
            },
    {
        match rows {
            Err(d) => Err(ApiError::query_failed(d)),
            Ok(v) => {
                let mut data: Vec<User> = Vec::new();
                let n = v.len();
                let mut i: usize = 0;
                while i < n
                    invariant
                        n == v@.len(),
                        i <= n,
                        data@.len() == i,
                        forall|j: int|
                            0 <= j < i ==> #[trigger] data@[j]@ == (UserView {
                                id: v@[j].0,
                                username: v@[j].1@,
                                relation: Some(v@[j].2),
                            }),
                    decreases n - i,
                {
                    let row = &v[i];
                    data.push(User { id: row.0, username: row.1.clone(), relation: Some(row.2) });
                    i = i + 1;
                }
                Ok(data)
            },
        }
    }

    /// A login of `username` at clock reading `now`, from the rows of the
    /// login query: for each user with that name, the id and whether the
    /// authentication key given matched one of theirs.
    pub fn login_at(username: String, rows: Result<Vec<(i64, bool)>, String>, now: i64) -> (r: Result<
        LoginResponse,
        ApiError,
    >)
        requires
            now <= i64::MAX - AUTH_TOKEN_TTL_SECS,
        ensures
            result_view(r) == login_outcome(username@, rows_view(rows), now as int),
            r is Ok <==> (rows matches Ok(v) && v@.len() > 0 && v@[0].1),
            r matches Ok(resp) ==> {
                &&& resp.me.username@ == username@
                &&& rows matches Ok(v) && resp.me.id == v@[0].0
                &&& resp.me.relation is None
                &&& resp.auth_token@ == "Cake"@
                &&& resp.valid_until == now + AUTH_TOKEN_TTL_SECS
            },
    {
        match rows {
            Err(d) => Err(ApiError::query_failed(d)),
            Ok(v) => {
                if v.len() == 0 {
                    let mut desc = String::from_str("No user found with username '");
                    desc.append(username.as_str());
                    desc.append("'");
                    Err(ApiError::new(StatusCode::NotFound, desc))
                } else if v[0].1 {
                    let me = User { id: v[0].0, username, relation: None };
                    Ok(
                        LoginResponse {
                            auth_token: String::from_str("Cake"),
                            valid_until: now + AUTH_TOKEN_TTL_SECS,
                            me,
                        },
                    )
                } else {
                    Err(ApiError::new(StatusCode::Forbidden, String::from_str("Invalid auth_key!")))
                }
            },
        }
    }

    /// A login of `username` at clock reading `now`, from the rows of the
    /// login query, for every clock reading: `None` exactly when the login
    /// issues a token and its expiry does not fit in an `i64`.
    pub fn login_with_clock(username: String, rows: Result<Vec<(i64, bool)>, String>, now: i64) -> (r:
        Option<Result<LoginResponse, ApiError>>)
        ensures
            login_answer(username@, rows_view(rows), now, answer_view(r)),
    {
        let issues = match &rows {
            Ok(v) => v.len() > 0 && v[0].1,
            Err(_) => false,
        };
        if issues && now > i64::MAX - AUTH_TOKEN_TTL_SECS {
            None
        } else if issues {
            Some(User::login_at(username, rows, now))
        } else {
            // No token is issued, so the clock reading plays no part.
            let answer = User::login_at(username, rows, 0);
            assert(login_outcome(username@, rows_view(rows), 0) == login_outcome(
                username@,
                rows_view(rows),
                now as int,
            ));
            Some(answer)
        }
    }

    /// A login of `username` now, from the rows of the login query: reads the
    /// clock and answers as `login_with_clock` does for that reading.
    pub fn login(username: String, rows: Result<Vec<(i64, bool)>, String>) -> (r: Option<
        Result<LoginResponse, ApiError>,
    >)
        ensures
            exists|now: i64| #[trigger]
                login_answer(username@, rows_view(rows), now, answer_view(r)),
            !login_issues_token(rows_view(rows)) ==> (r matches Some(res) && result_view(res)
                == login_outcome(username@, rows_view(rows), 0)),
    {
        let now = clock_seconds();
        User::login_with_clock(username, rows, now)
    }
}

} // verus!
