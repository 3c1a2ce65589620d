//! Properties of the token lifecycle that span several calls, stated over the
//! contracts of login, logout, renewal, the codec and the authorization check.
use vstd::prelude::*;

use crate::claims::Claims;
use crate::codec::decode_post;
use crate::credentials::UserRepository;
use crate::error::AppError;
use crate::authorization::authorize_post;
use crate::password::password_matches;
use crate::revocation::AuthRepository;
use crate::session::{login_post, logout_post, renew_post, session_claims, SESSION_SECONDS};
use crate::subject::subject_text;

verus! {

/// A login with a stored username and its matching password, against stores
/// that answer, returns a token that the codec reads back (without the expiry
/// check) as the claim set issued to that credential; its subject is the
/// credential's id.
pub proof fn lemma_login_token_decodes<U: UserRepository, A: AuthRepository>(
    users: U,
    before: A,
    after: A,
    secret: Seq<char>,
    username: Seq<char>,
    password: Seq<char>,
    now: usize,
    r: Result<String, AppError>,
    d: Result<Claims, AppError>,
)
    requires
        users.online(),
        before.online(),
        users.credentials().contains_key(username),
        password_matches(users.credentials()[username].password, password),
        login_post(users, before, after, secret, username, password, now, r),
        decode_post(r->Ok_0@, secret, d),
    ensures
        r is Ok,
        d is Ok,
        d->Ok_0@.sub == subject_text(users.credentials()[username].id),
        d->Ok_0@ == session_claims(users.credentials()[username], now),
{
    let c = session_claims(users.credentials()[username], now);
    assert(crate::codec::jwt_signed(c, secret) == r->Ok_0@);
}

/// Right after a successful login, authorization accepts the returned token and
/// hands on the subject and the role of the credential.
pub proof fn lemma_login_then_authorize<U: UserRepository, A: AuthRepository>(
    users: U,
    before: A,
    after: A,
    secret: Seq<char>,
    username: Seq<char>,
    password: Seq<char>,
    now: usize,
    r: Result<String, AppError>,
    a: Result<Claims, AppError>,
)
    requires
        users.online(),
        before.online(),
        users.credentials().contains_key(username),
        password_matches(users.credentials()[username].password, password),
        login_post(users, before, after, secret, username, password, now, r),
        authorize_post(r->Ok_0@, secret, after, a),
    ensures
        r is Ok,
        a is Ok,
        a->Ok_0@.sub == subject_text(users.credentials()[username].id),
        a->Ok_0@.role == users.credentials()[username].role as u8,
{
    let cred = users.credentials()[username];
    let c = session_claims(cred, now);
    assert(crate::codec::jwt_signed(c, secret) == r->Ok_0@);
    assert(subject_text(cred.id) == c.sub);
    assert(after.sessions().contains_key(cred.id));
}

/// After a login and a logout of its subject, authorization rejects the token as
/// expired, although the codec still reads the token back.
pub proof fn lemma_logout_revokes<U: UserRepository, A: AuthRepository>(
    users: U,
    before: A,
    issued: A,
    after: A,
    secret: Seq<char>,
    username: Seq<char>,
    password: Seq<char>,
    now: usize,
    r: Result<String, AppError>,
    out: Result<(), AppError>,
    a: Result<Claims, AppError>,
    d: Result<Claims, AppError>,
)
    requires
        users.online(),
        before.online(),
        users.credentials().contains_key(username),
        password_matches(users.credentials()[username].password, password),
        login_post(users, before, issued, secret, username, password, now, r),
        logout_post(issued, after, users.credentials()[username].id, out),
        authorize_post(r->Ok_0@, secret, after, a),
        decode_post(r->Ok_0@, secret, d),
    ensures
        out is Ok,
        a == Err::<Claims, AppError>(AppError::TokenIsExpired),
        d is Ok,
{
    let cred = users.credentials()[username];
    let c = session_claims(cred, now);
    assert(crate::codec::jwt_signed(c, secret) == r->Ok_0@);
    assert(subject_text(cred.id) == c.sub);
    assert(!after.sessions().contains_key(cred.id));
}

/// A session that is still live when it is renewed stays live: after the
/// renewal authorization accepts the login's token, and the session has a full
/// lifetime again, no less than what it had left.
pub proof fn lemma_renew_keeps_session<U: UserRepository, A: AuthRepository>(
    users: U,
    before: A,
    issued: A,
    elapsed: A,
    after: A,
    secret: Seq<char>,
    username: Seq<char>,
    password: Seq<char>,
    now: usize,
    r: Result<String, AppError>,
    renewal: Result<(), AppError>,
    a: Result<Claims, AppError>,
)
    requires
        users.online(),
        before.online(),
        users.credentials().contains_key(username),
        password_matches(users.credentials()[username].password, password),
        login_post(users, before, issued, secret, username, password, now, r),
        elapsed.online(),
        elapsed.sessions().contains_key(users.credentials()[username].id),
        elapsed.sessions()[users.credentials()[username].id].ttl <= issued.sessions()[users.credentials()[username].id].ttl,
        renew_post(elapsed, after, users.credentials()[username].id, renewal),
        authorize_post(r->Ok_0@, secret, after, a),
    ensures
        renewal is Ok,
        a is Ok,
        a->Ok_0@ == session_claims(users.credentials()[username], now),
        after.sessions()[users.credentials()[username].id].ttl == SESSION_SECONDS,
        elapsed.sessions()[users.credentials()[username].id].ttl <= after.sessions()[users.credentials()[username].id].ttl,
{
    let cred = users.credentials()[username];
    let c = session_claims(cred, now);
    assert(crate::codec::jwt_signed(c, secret) == r->Ok_0@);
    assert(subject_text(cred.id) == c.sub);
    assert(issued.sessions()[cred.id].ttl == SESSION_SECONDS);
    assert(after.sessions().contains_key(cred.id));
}

/// Against a credential store that answers, a login with an unknown username
/// fails with `UserNotExist` and one with a wrong password with
/// `AuthorizeFailed`, two different failures; neither touches the revocation
/// store.
pub proof fn lemma_login_rejections<U: UserRepository, A: AuthRepository>(
    users: U,
    before: A,
    after: A,
    secret: Seq<char>,
    username: Seq<char>,
    password: Seq<char>,
    now: usize,
    r: Result<String, AppError>,
)
    requires
        users.online(),
        login_post(users, before, after, secret, username, password, now, r),
    ensures
        !users.credentials().contains_key(username) ==> r == Err::<String, AppError>(
            AppError::UserNotExist,
        ) && after.sessions() == before.sessions(),
        users.credentials().contains_key(username) && !password_matches(
            users.credentials()[username].password,
            password,
        ) ==> r == Err::<String, AppError>(AppError::AuthorizeFailed) && after.sessions()
            == before.sessions(),
        AppError::UserNotExist != AppError::AuthorizeFailed,
{
}

} // verus!
