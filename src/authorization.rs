//! The authorization check, run on every protected request: it extracts the
//! presented token, checks its signature (not its embedded expiry), and then
//! asks the revocation store whether the token's subject still has a live
//! session. A token with a valid signature is never enough by itself.
use vstd::prelude::*;

use crate::claims::Claims;
use crate::codec::{decode_claims, decode_post, decoded_claims, reads_back};
use crate::error::AppError;
use crate::revocation::AuthRepository;
use crate::subject::{parse_subject, subject_text, uuid_parsed};

verus! {

/// Where a request carries its token.
#[derive(Debug, Clone, Copy, PartialEq, Eq, Structural)]
pub enum TokenCarrier {
    /// An `Authorization: Bearer <token>` header.
    BearerHeader,
    /// A cookie that holds the token itself.
    Cookie,
}

/// The prefix of an `Authorization` header that carries a bearer token.
pub open spec fn bearer() -> Seq<char> {
    seq!['B', 'e', 'a', 'r', 'e', 'r', ' ']
}

pub open spec fn starts_with(s: Seq<char>, p: Seq<char>) -> bool {
    p.len() <= s.len() && s.subrange(0, p.len() as int) == p
}

/// A header value with every leading bearer prefix taken off.
pub open spec fn trim_bearer(s: Seq<char>) -> Seq<char>
    decreases s.len(),
{
    if starts_with(s, bearer()) {
        trim_bearer(s.subrange(7, s.len() as int))
    } else {
        s
    }
}

/// The token that a request presents through `carrier`, given what it holds
/// there (the `Authorization` header's value, or the cookie's).
pub open spec fn extracted(carrier: TokenCarrier, presented: Option<Seq<char>>) -> Option<Seq<char>> {
    match presented {
        None => None,
        Some(v) => match carrier {
            TokenCarrier::Cookie => Some(v),
            TokenCarrier::BearerHeader => {
                if starts_with(v, bearer()) {
                    Some(trim_bearer(v))
                } else {
                    None
                }
            },
        },
    }
}

pub open spec fn presented_view(presented: Option<&str>) -> Option<Seq<char>> {
    match presented {
        Some(v) => Some(v@),
        None => None,
    }
}

/// Relies on `str::strip_prefix` with a string pattern: what follows the
/// prefix, exactly when `s` starts with it.
#[verifier::external_body]
fn strip_prefix<'a>(s: &'a str, prefix: &str) -> (r: Option<&'a str>)
    ensures
        r is Some <==> starts_with(s@, prefix@),
        r is Some ==> r->0@ == s@.subrange(prefix@.len() as int, s@.len() as int),
{
    s.strip_prefix(prefix)
}

/// The bearer token of an `Authorization` header value: the value must start
/// with `Bearer `, and every leading repetition of that prefix is taken off.
pub fn jwt_from_header(header: Option<&str>) -> (r: Result<String, AppError>)
    ensures
        match extracted(TokenCarrier::BearerHeader, presented_view(header)) {
            Some(t) => r is Ok && r->Ok_0@ == t,
            None => r == Err::<String, AppError>(AppError::TokenNotExist),
        },
{
    let value = match header {
        None => {
            return Err(AppError::TokenNotExist);
        },
        Some(v) => v,
    };
    let prefix = "Bearer ";
    proof {
        reveal_strlit("Bearer ");
        assert(prefix@ == bearer());
    }
    let mut rest = match strip_prefix(value, prefix) {
        None => {
            return Err(AppError::TokenNotExist);
        },
        Some(rest) => rest,
    };
    loop
        invariant
            prefix@ == bearer(),
            header == Some(value),
            starts_with(value@, bearer()),
            trim_bearer(rest@) == trim_bearer(value@),
        decreases rest@.len(),
    {
        match strip_prefix(rest, prefix) {
            None => {
                return Ok(rest.to_owned());
            },
            Some(next) => {
                rest = next;
            },
        }
    }
}

/// The token that a request presents through `carrier`, or `TokenNotExist`.
pub fn extract_token(carrier: TokenCarrier, presented: Option<&str>) -> (r: Result<String, AppError>)
    ensures
        match extracted(carrier, presented_view(presented)) {
            Some(t) => r is Ok && r->Ok_0@ == t,
            None => r == Err::<String, AppError>(AppError::TokenNotExist),
        },
{
    match carrier {
        TokenCarrier::BearerHeader => jwt_from_header(presented),
        TokenCarrier::Cookie => match presented {
            Some(v) => Ok(v.to_owned()),
            None => Err(AppError::TokenNotExist),
        },
    }
}

/// The text form of subject `v` reads back as `v`.
pub open spec fn subject_reads_back(sub: Seq<char>) -> bool {
    forall|v: u128| #[trigger] subject_text(v) == sub ==> uuid_parsed(sub) == Some(v)
}

/// Whether the claims' subject has no live session: true where the subject
/// is not a subject id or has no live marker; `BackendError` where the
/// revocation store does not answer.
pub fn check_is_expired<A: AuthRepository>(claims: &Claims, auth_repo: &A) -> (r: Result<
    bool,
    AppError,
>)
    ensures
        subject_reads_back(claims.sub@),
        match uuid_parsed(claims.sub@) {
            None => r == Ok::<bool, AppError>(true),
            Some(id) => if auth_repo.online() {
                r == Ok::<bool, AppError>(!auth_repo.sessions().contains_key(id))
            } else {
                r == Err::<bool, AppError>(AppError::BackendError)
            },
        },
{
    match parse_subject(claims.sub.as_str()) {
        None => Ok(true),
        Some(id) => match auth_repo.get(id) {
            Err(e) => Err(e),
            Ok(marker) => Ok(marker.is_none()),
        },
    }
}

/// What the authorization check decides for a token under a secret, against the revocation
/// store's state: the claims where the signature checks and the subject's
/// session is live; `AuthorizeFailed` where the signature does not check;
/// `TokenIsExpired` where the subject has no live session; `BackendError`
/// where the store does not answer.
pub open spec fn authorize_post<A: AuthRepository>(
    token: Seq<char>,
    secret: Seq<char>,
    repo: A,
    r: Result<Claims, AppError>,
) -> bool {
    &&& reads_back(token, secret)
    &&& match decoded_claims(token, secret) {
        None => r == Err::<Claims, AppError>(AppError::AuthorizeFailed),
        Some(c) => {
            &&& subject_reads_back(c.sub)
            &&& match uuid_parsed(c.sub) {
                None => r == Err::<Claims, AppError>(AppError::TokenIsExpired),
                Some(id) => if !repo.online() {
                    r == Err::<Claims, AppError>(AppError::BackendError)
                } else if repo.sessions().contains_key(id) {
                    r is Ok && r->Ok_0@ == c
                } else {
                    r == Err::<Claims, AppError>(AppError::TokenIsExpired)
                },
            }
        },
    }
}

/// Authorizes a presented token: decodes it under the secret without
/// enforcing its embedded expiry, then confirms that its subject's session is
/// live. A store that does not answer never counts as authorized.
pub fn authorize<A: AuthRepository>(token: &str, secret_key: &str, auth_repo: &A) -> (r: Result<
    Claims,
    AppError,
>)
    ensures
        authorize_post(token@, secret_key@, *auth_repo, r),
{
    let decoded = decode_claims(token, secret_key, false);
    assert(decode_post(token@, secret_key@, decoded));
    let claims = match decoded {
        Err(_) => {
            return Err(AppError::AuthorizeFailed);
        },
        Ok(c) => c,
    };
    match check_is_expired(&claims, auth_repo) {
        Err(e) => Err(e),
        Ok(true) => Err(AppError::TokenIsExpired),
        Ok(false) => Ok(claims),
    }
}

/// The whole check: extracts the token that a request presents through
/// `carrier` and authorizes it.
pub fn authenticate<A: AuthRepository>(
    carrier: TokenCarrier,
    presented: Option<&str>,
    secret_key: &str,
    auth_repo: &A,
) -> (r: Result<Claims, AppError>)
    ensures
        match extracted(carrier, presented_view(presented)) {
            None => r == Err::<Claims, AppError>(AppError::TokenNotExist),
            Some(t) => authorize_post(t, secret_key@, *auth_repo, r),
        },
{
    let token = match extract_token(carrier, presented) {
        Err(e) => {
            return Err(e);
        },
        Ok(t) => t,
    };
    authorize(token.as_str(), secret_key, auth_repo)
}

} // verus!
