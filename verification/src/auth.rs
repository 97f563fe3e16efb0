//! The login decision: who may have a token, and until when it is valid.

use vstd::prelude::*;
use crate::ids::ObjectId;
use crate::status::Status;

verus! {

/// Seconds for which an issued token is valid: twenty-four hours.
pub const TOKEN_LIFETIME_SECS: u64 = 86400;

/// An administrator as the store holds it.
#[derive(Debug)]
pub struct Admin {
    pub id: Option<ObjectId>,
    pub username: String,
    pub password: String,
}

/// The credentials of a login request.
#[derive(Debug)]
pub struct LoginCredentials {
    pub username: String,
    pub password: String,
}

/// The answer to a successful login.
#[derive(Debug)]
pub struct LoginResponse {
    pub token: String,
}

/// What a token states: whom it was issued to, and the second (since the
/// start of 1970, UTC) at which it expires.
#[derive(Debug)]
pub struct Claims {
    pub sub: String,
    pub exp: u64,
}

/// What the store answered when asked for the administrator of a name.
#[derive(Debug)]
pub enum AdminLookup {
    Found(Admin),
    Missing,
    Failed,
}

/// Reads the clock with `Utc::now` of chrono and gives its seconds since the
/// start of 1970. chrono takes the time as the span since that start and
/// stops with a panic on a clock set before it, so what comes back is never
/// negative. Which second it is depends on the moment of the call.
#[verifier::external_body]
fn utc_now_seconds() -> (r: i64)
    ensures
        0 <= r,
{
    chrono::Utc::now().timestamp()
}

/// The second at which a token issued at second `now` expires.
pub fn token_expiry(now: u64) -> (exp: u64)
    requires
        now + TOKEN_LIFETIME_SECS <= u64::MAX,
    ensures
        exp == now + 86400,
{
    now + TOKEN_LIFETIME_SECS
}

/// The outcome that a login owes, for a token that would be issued at second
/// `now`.
pub open spec fn login_outcome(
    lookup: AdminLookup,
    credentials: LoginCredentials,
    now: nat,
    r: Result<Claims, Status>,
) -> bool {
    match lookup {
        AdminLookup::Failed => r == Err::<Claims, Status>(Status::InternalServerError),
        AdminLookup::Missing => r == Err::<Claims, Status>(Status::Unauthorized),
        AdminLookup::Found(admin) => if admin.password@ == credentials.password@ {
            &&& r is Ok
            &&& r->Ok_0.sub@ == admin.username@
            &&& r->Ok_0.exp == now + 86400
        } else {
            r == Err::<Claims, Status>(Status::Unauthorized)
        },
    }
}

/// Decides a login at second `now`. A failed lookup is an internal error; an
/// unknown name or a wrong password is refused; otherwise the claims name
/// the administrator and expire a day later.
pub fn login_at(lookup: AdminLookup, credentials: &LoginCredentials, now: u64) -> (r: Result<
    Claims,
    Status,
>)
    requires
        now + TOKEN_LIFETIME_SECS <= u64::MAX,
    ensures
        login_outcome(lookup, *credentials, now as nat, r),
{
    match lookup {
        AdminLookup::Failed => Err(Status::InternalServerError),
        AdminLookup::Missing => Err(Status::Unauthorized),
        AdminLookup::Found(admin) => {
            if admin.password == credentials.password {
                Ok(Claims { sub: admin.username, exp: token_expiry(now) })
            } else {
                Err(Status::Unauthorized)
            }
        },
    }
}

/// Decides a login now. The outcome is the one that `login_at` gives for the
/// second that the clock shows.
pub fn login_handler(lookup: AdminLookup, credentials: &LoginCredentials) -> (r: Result<
    Claims,
    Status,
>)
    ensures
        exists|now: nat| login_outcome(lookup, *credentials, now, r),
{
    let now: i64 = utc_now_seconds();
    let r = login_at(lookup, credentials, now as u64);
    assert(login_outcome(lookup, *credentials, now as nat, r));
    r
}

/// Wraps up a login once the token is signed: `None` stands for a signing
/// failure, which is an internal error.
pub fn login_response(token: Option<String>) -> (r: Result<LoginResponse, Status>)
    ensures
        match token {
            Some(t) => r is Ok && r->Ok_0.token@ == t@,
            None => r == Err::<LoginResponse, Status>(Status::InternalServerError),
        },
{
    match token {
        Some(t) => Ok(LoginResponse { token: t }),
        None => Err(Status::InternalServerError),
    }
}

} // verus!
