//! The session issuer: login checks a credential, signs a claim set for the
//! subject and records the subject's session in the revocation store; logout
//! and renewal act on that record.
use vstd::prelude::*;

use crate::claims::{Claims, ClaimsModel};
use crate::codec::{create_token, jwt_signed};
use crate::config::Config;
use crate::credentials::{Credential, UserRepository};
use crate::error::AppError;
use crate::password::{password_matches, verify_password};
use crate::revocation::{refreshed, AuthRepository, Session};
use crate::subject::{subject_string, subject_text};

verus! {

/// A login request: the username and the password presented.
#[derive(Debug)]
pub struct AuthRequest {
    pub username: String,
    pub password: String,
}

/// The lifetime of a session, in seconds: thirty days.
pub const SESSION_SECONDS: usize = 2592000;

/// The lifetime of a session, in seconds: thirty days.
pub fn get_expired_seconds() -> (r: usize)
    ensures
        r == SESSION_SECONDS,
        r == 30 * 24 * 60 * 60,
{
    SESSION_SECONDS
}

/// The claim set issued to a credential at unix time `now`.
pub open spec fn session_claims(cred: Credential, now: usize) -> ClaimsModel {
    ClaimsModel {
        sub: subject_text(cred.id),
        exp: (now + SESSION_SECONDS) as usize,
        role: cred.role as u8,
    }
}

/// The token issued to a credential at unix time `now` under `secret`.
pub open spec fn session_token(cred: Credential, now: usize, secret: Seq<char>) -> Seq<char> {
    jwt_signed(session_claims(cred, now), secret)
}

/// What a login at unix time `now` does, from the stores' states before
/// (`users`, `before`) to the revocation store's state after (`after`) and
/// the result `r`.
pub open spec fn login_post<U: UserRepository, A: AuthRepository>(
    users: U,
    before: A,
    after: A,
    secret: Seq<char>,
    username: Seq<char>,
    password: Seq<char>,
    now: usize,
    r: Result<String, AppError>,
) -> bool {
    &&& after.online() == before.online()
    &&& if !users.online() {
        r == Err::<String, AppError>(AppError::DatabaseError) && after.sessions() == before.sessions()
    } else if !users.credentials().contains_key(username) {
        r == Err::<String, AppError>(AppError::UserNotExist) && after.sessions() == before.sessions()
    } else if !password_matches(users.credentials()[username].password, password) {
        r == Err::<String, AppError>(AppError::AuthorizeFailed) && after.sessions()
            == before.sessions()
    } else if !before.online() {
        r == Err::<String, AppError>(AppError::BackendError) && after.sessions() == before.sessions()
    } else {
        let cred = users.credentials()[username];
        let token = session_token(cred, now, secret);
        &&& r is Ok
        &&& r->Ok_0@ == token
        &&& after.sessions() == before.sessions().insert(
            cred.id,
            Session { marker: token, ttl: SESSION_SECONDS as nat },
        )
    }
}

/// Logs a user in at unix time `now`: looks the username up, checks the
/// password, signs a claim set for the subject that expires a session
/// lifetime from `now`, and records the subject's session in the revocation
/// store for the same lifetime. The token is returned only once its session
/// is recorded.
pub fn login_at<U: UserRepository, A: AuthRepository>(
    user_repo: &U,
    auth_repo: &mut A,
    config: &Config,
    username: &str,
    password: &str,
    now: usize,
) -> (r: Result<String, AppError>)
    requires
        now + SESSION_SECONDS <= usize::MAX,
    ensures
        login_post(
            *user_repo,
            *old(auth_repo),
            *final(auth_repo),
            config.secret_key@,
            username@,
            password@,
            now,
            r,
        ),
{
    match user_repo.get_by_name(username) {
        Err(e) => Err(e),
        Ok(None) => Err(AppError::UserNotExist),
        Ok(Some(user)) => {
            if !verify_password(user.password.as_str(), password) {
                return Err(AppError::AuthorizeFailed);
            }
            let lifetime = get_expired_seconds();
            #[verifier::truncate]
            let role = user.role as u8;
            let claims = Claims::new(subject_string(user.id), now + lifetime, role);
            let token = create_token(claims, config.secret_key.as_str());
            auth_repo.create(user.id, token.as_str(), lifetime)
        },
    }
}

/// Relies on `chrono::Utc::now`: the current time as unix seconds. Nothing is
/// known of the value.
#[verifier::external_body]
fn unix_now() -> (r: i64) {
    chrono::Utc::now().timestamp()
}

/// The latest instant at which a session can start, so that its expiry
/// still fits.
pub open spec fn latest_start() -> usize {
    (usize::MAX - SESSION_SECONDS) as usize
}

/// Logs a user in at the current time (clamped to the instants from zero to
/// `latest_start()`). See `login_at`.
pub fn login<U: UserRepository, A: AuthRepository>(
    user_repo: &U,
    auth_repo: &mut A,
    config: &Config,
    username: &str,
    password: &str,
) -> (r: Result<String, AppError>)
    ensures
        exists|now: usize|
            now <= latest_start() && #[trigger] login_post(
                *user_repo,
                *old(auth_repo),
                *final(auth_repo),
                config.secret_key@,
                username@,
                password@,
                now,
                r,
            ),
{
    let t = unix_now();
    let latest = usize::MAX - SESSION_SECONDS;
    let now: usize = if t <= 0 {
        0
    } else if t as u64 >= latest as u64 {
        latest
    } else {
        t as usize
    };
    let r = login_at(user_repo, auth_repo, config, username, password, now);
    assert(login_post(
        *user_repo,
        *old(auth_repo),
        *auth_repo,
        config.secret_key@,
        username@,
        password@,
        now,
        r,
    ));
    r
}

/// What ending subject `id`'s session does to the revocation store.
pub open spec fn logout_post<A: AuthRepository>(
    before: A,
    after: A,
    id: u128,
    r: Result<(), AppError>,
) -> bool {
    &&& after.online() == before.online()
    &&& (r is Ok <==> before.online())
    &&& r is Ok ==> after.sessions() == before.sessions().remove(id)
    &&& r is Err ==> r == Err::<(), AppError>(AppError::BackendError) && after.sessions()
        == before.sessions()
}

/// What renewing subject `id`'s session does to the revocation store.
pub open spec fn renew_post<A: AuthRepository>(
    before: A,
    after: A,
    id: u128,
    r: Result<(), AppError>,
) -> bool {
    &&& after.online() == before.online()
    &&& (r is Ok <==> before.online())
    &&& r is Ok ==> after.sessions() == refreshed(before.sessions(), id, SESSION_SECONDS as nat)
    &&& r is Err ==> r == Err::<(), AppError>(AppError::BackendError) && after.sessions()
        == before.sessions()
}

/// Ends the subject's session: its marker is deleted from the revocation
/// store. Ending a session that is not live succeeds.
pub fn logout<A: AuthRepository>(auth_repo: &mut A, id: u128) -> (r: Result<(), AppError>)
    ensures
        logout_post(*old(auth_repo), *final(auth_repo), id, r),
{
    auth_repo.expire(id)
}

/// Gives the subject's live session a fresh session lifetime; where it has
/// none, nothing changes.
pub fn renew<A: AuthRepository>(auth_repo: &mut A, id: u128) -> (r: Result<(), AppError>)
    ensures
        renew_post(*old(auth_repo), *final(auth_repo), id, r),
{
    auth_repo.renew(id, get_expired_seconds())
}

} // verus!
