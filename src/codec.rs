//! The claims codec: claim sets signed into compact tokens (HS256 JWTs under
//! a process-wide secret) and read back from them.
use vstd::prelude::*;

use crate::claims::{Claims, ClaimsModel};
use crate::error::AppError;

verus! {

/// The claim fields found in a token's payload, before their types are
/// checked against a claim set.
pub struct ClaimFields {
    pub sub: Option<String>,
    pub exp: Option<u64>,
    pub role: Option<u64>,
}

/// What a token's payload holds, as mathematical values.
pub struct FieldsModel {
    pub sub: Option<Seq<char>>,
    pub exp: Option<u64>,
    pub role: Option<u64>,
}

impl View for ClaimFields {
    type V = FieldsModel;

    open spec fn view(&self) -> FieldsModel {
        FieldsModel {
            sub: match self.sub {
                Some(s) => Some(s@),
                None => None,
            },
            exp: self.exp,
            role: self.role,
        }
    }
}

/// The token that `jsonwebtoken::encode` makes from a claim set and a secret.
pub uninterp spec fn jwt_signed(c: ClaimsModel, key: Seq<char>) -> Seq<char>;

/// The payload fields that `jsonwebtoken::decode`, without the expiry check,
/// accepts from a token under a secret; nothing where it rejects the token.
pub uninterp spec fn jwt_fields(token: Seq<char>, key: Seq<char>) -> Option<FieldsModel>;

/// The payload fields of a claim set.
pub open spec fn fields_of(c: ClaimsModel) -> FieldsModel {
    FieldsModel { sub: Some(c.sub), exp: Some(c.exp as u64), role: Some(c.role as u64) }
}

/// The claim set that payload fields describe, where each is present and in
/// the range of its claim.
pub open spec fn claims_from_fields(f: FieldsModel) -> Option<ClaimsModel> {
    match (f.sub, f.exp, f.role) {
        (Some(s), Some(e), Some(r)) => {
            if e <= usize::MAX && r <= 255 {
                Some(ClaimsModel { sub: s, exp: e as usize, role: r as u8 })
            } else {
                None
            }
        },
        _ => None,
    }
}

/// The claim set that a token carries under a secret, its signature checked
/// and its expiry not.
pub open spec fn decoded_claims(token: Seq<char>, key: Seq<char>) -> Option<ClaimsModel> {
    match jwt_fields(token, key) {
        Some(f) => claims_from_fields(f),
        None => None,
    }
}

/// A token made from `c` under `key` reads back as `c` under that key.
pub open spec fn reads_back(token: Seq<char>, key: Seq<char>) -> bool {
    forall|c: ClaimsModel| #[trigger] jwt_signed(c, key) == token ==> decoded_claims(token, key) == Some(c)
}

/// What reading a token without the expiry check yields: the claim set it
/// carries, or `DecodeClaimsFailed`.
pub open spec fn decode_post(token: Seq<char>, key: Seq<char>, r: Result<Claims, AppError>) -> bool {
    &&& match decoded_claims(token, key) {
        Some(c) => r is Ok && r->Ok_0@ == c,
        None => r == Err::<Claims, AppError>(AppError::DecodeClaimsFailed),
    }
    &&& reads_back(token, key)
}

/// The payload fields that a decoding call handed back, if it succeeded.
pub open spec fn fields_view(r: Result<ClaimFields, jsonwebtoken::errors::Error>) -> Option<FieldsModel> {
    match r {
        Ok(f) => Some(f@),
        Err(_) => None,
    }
}

#[verifier::external_type_specification]
#[verifier::external_body]
pub struct ExJwtError(jsonwebtoken::errors::Error);

/// Relies on `jsonwebtoken::encode` with the default header (HS256) and
/// `EncodingKey::from_secret` on the secret's bytes. With an HMAC key and an
/// HMAC algorithm the call does not fail (the header and a JSON object always
/// serialise), and the token depends on the claims and the secret alone.
#[verifier::external_body]
fn jwt_encode(claims: &Claims, secret: &str) -> (r: Result<String, jsonwebtoken::errors::Error>)
    ensures
        r is Ok,
        r is Ok ==> r->Ok_0@ == jwt_signed(claims@, secret@),
{
    let mut body = serde_json::Map::new();
    body.insert("sub".to_string(), serde_json::Value::from(claims.sub.clone()));
    body.insert("exp".to_string(), serde_json::Value::from(claims.exp));
    body.insert("role".to_string(), serde_json::Value::from(claims.role));
    let key = jsonwebtoken::EncodingKey::from_secret(secret.as_bytes());
    jsonwebtoken::encode(&jsonwebtoken::Header::default(), &body, &key)
}

/// Relies on `jsonwebtoken::decode` into a JSON object, with
/// `Validation::default()` (HS256, `exp` required), no leeway, and
/// `DecodingKey::from_secret` on the secret's bytes. Without the expiry check
/// the outcome depends on the token and the secret alone; the expiry check
/// runs last, so it only turns a success into a failure; and a token made by
/// `jwt_encode` under the same secret reads back as the fields it was made
/// from. Each of `sub`, `exp` and `role` is handed on where the payload holds
/// it with the JSON type of that claim (a string, then two unsigned numbers).
#[verifier::external_body]
fn jwt_decode(token: &str, secret: &str, validate_exp: bool) -> (r: Result<
    ClaimFields,
    jsonwebtoken::errors::Error,
>)
    ensures
        !validate_exp ==> fields_view(r) == jwt_fields(token@, secret@),
        validate_exp && r is Ok ==> jwt_fields(token@, secret@) == Some(r->Ok_0@),
        forall|c: ClaimsModel| #[trigger]
            jwt_signed(c, secret@) == token@ && !validate_exp ==> r is Ok && r->Ok_0@ == fields_of(c),
{
    let mut validation = jsonwebtoken::Validation::default();
    validation.validate_exp = validate_exp;
    validation.leeway = 0;
    let key = jsonwebtoken::DecodingKey::from_secret(secret.as_bytes());
    let body = jsonwebtoken::decode::<serde_json::Map<String, serde_json::Value>>(token, &key, &validation)?.claims;
    Ok(ClaimFields {
        sub: body.get("sub").and_then(|v| v.as_str()).map(|s| s.to_string()),
        exp: body.get("exp").and_then(|v| v.as_u64()),
        role: body.get("role").and_then(|v| v.as_u64()),
    })
}

/// Signs a claim set under the secret into a token.
pub fn create_token(claims: Claims, secret_key: &str) -> (r: String)
    ensures
        r@ == jwt_signed(claims@, secret_key@),
{
    match jwt_encode(&claims, secret_key) {
        Ok(token) => token,
        Err(_) => String::new(),
    }
}

/// Checks payload fields against the claim set's types.
pub fn claims_from(fields: ClaimFields) -> (r: Option<Claims>)
    ensures
        match claims_from_fields(fields@) {
            Some(c) => r is Some && r->0@ == c,
            None => r is None,
        },
{
    match (fields.sub, fields.exp, fields.role) {
        (Some(sub), Some(exp), Some(role)) => {
            if exp <= usize::MAX as u64 && role <= 255 {
                Some(Claims { sub, exp: exp as usize, role: role as u8 })
            } else {
                None
            }
        },
        _ => None,
    }
}

/// Reads the claim set that a token carries under the secret. The signature
/// is always checked; the embedded expiry only where `enforce_expiry` is set.
/// Every failure is reported as `DecodeClaimsFailed`.
pub fn decode_claims(token: &str, secret_key: &str, enforce_expiry: bool) -> (r: Result<
    Claims,
    AppError,
>)
    ensures
        !enforce_expiry ==> decode_post(token@, secret_key@, r),
        enforce_expiry ==> match r {
            Ok(c) => decoded_claims(token@, secret_key@) == Some(c@),
            Err(e) => e == AppError::DecodeClaimsFailed,
        },
{
    let decoded = jwt_decode(token, secret_key, enforce_expiry);
    proof {
        if !enforce_expiry {
            assert forall|c: ClaimsModel| #[trigger] jwt_signed(c, secret_key@) == token@ implies decoded_claims(token@, secret_key@) == Some(c) by {
                assert(fields_view(decoded) == Some(fields_of(c)));
            }
        }
    }
    match decoded {
        Ok(fields) => match claims_from(fields) {
            Some(c) => Ok(c),
            None => Err(AppError::DecodeClaimsFailed),
        },
        Err(_) => Err(AppError::DecodeClaimsFailed),
    }
}

/// Reads the claim set that a token carries under the secret, rejecting a
/// token whose embedded expiry has passed.
pub fn decode_token(token: &str, secret_key: &str) -> (r: Result<Claims, AppError>)
    ensures
        match r {
            Ok(c) => decoded_claims(token@, secret_key@) == Some(c@),
            Err(e) => e == AppError::DecodeClaimsFailed,
        },
        decoded_claims(token@, secret_key@) is None ==> r is Err,
{
    decode_claims(token, secret_key, true)
}

} // verus!
