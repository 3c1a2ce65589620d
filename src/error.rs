use vstd::prelude::*;

verus! {

/// The failures that the session core reports to its callers.
#[derive(Debug, Clone, Copy, PartialEq, Eq, Structural)]
pub enum AppError {
    /// Bad credentials, or a token whose signature does not check.
    AuthorizeFailed,
    /// The credential store did not answer.
    DatabaseError,
    /// The password hashing collaborator failed.
    HashPasswordFailed,
    /// No credential is stored under the given username.
    UserNotExist,
    /// No token was presented, or it was not in the expected shape.
    TokenNotExist,
    /// The token's signature checks, but its subject has no live session.
    TokenIsExpired,
    /// The claims codec could not decode or validate a token.
    DecodeClaimsFailed,
    /// The revocation store did not answer.
    BackendError,
}

/// HTTP status that the response layer uses for each failure.
pub open spec fn status_of(e: AppError) -> u16 {
    match e {
        AppError::AuthorizeFailed => 401,
        AppError::TokenNotExist => 401,
        AppError::TokenIsExpired => 401,
        AppError::DecodeClaimsFailed => 401,
        AppError::UserNotExist => 404,
        AppError::DatabaseError => 500,
        AppError::HashPasswordFailed => 500,
        AppError::BackendError => 500,
    }
}

/// The message shown to the client for each failure.
pub open spec fn message_of(e: AppError) -> Seq<char> {
    match e {
        AppError::AuthorizeFailed => "un-authorized."@,
        AppError::DatabaseError => "database error."@,
        AppError::HashPasswordFailed => "hash password failed."@,
        AppError::UserNotExist => "user not exist."@,
        AppError::TokenNotExist => "token not exist."@,
        AppError::TokenIsExpired => "token is expired."@,
        AppError::DecodeClaimsFailed => "un-authorized."@,
        AppError::BackendError => "backend error."@,
    }
}

impl AppError {
    /// The HTTP status code for this failure.
    pub fn status_code(&self) -> (r: u16)
        ensures
            r == status_of(*self),
    {
        match self {
            AppError::AuthorizeFailed => 401,
            AppError::TokenNotExist => 401,
            AppError::TokenIsExpired => 401,
            AppError::DecodeClaimsFailed => 401,
            AppError::UserNotExist => 404,
            AppError::DatabaseError => 500,
            AppError::HashPasswordFailed => 500,
            AppError::BackendError => 500,
        }
    }

    /// The message shown to the client for this failure.
    pub fn message(&self) -> (r: &'static str)
        ensures
            r@ == message_of(*self),
    {
        match self {
            AppError::AuthorizeFailed => "un-authorized.",
            AppError::DatabaseError => "database error.",
            AppError::HashPasswordFailed => "hash password failed.",
            AppError::UserNotExist => "user not exist.",
            AppError::TokenNotExist => "token not exist.",
            AppError::TokenIsExpired => "token is expired.",
            AppError::DecodeClaimsFailed => "un-authorized.",
            AppError::BackendError => "backend error.",
        }
    }
}

/// The body of an error reply: a status code and a message.
#[derive(Debug)]
pub struct ErrorResponse {
    pub code: u16,
    pub message: String,
}

impl<'a> From<(u16, &'a str)> for ErrorResponse {
    fn from(e: (u16, &'a str)) -> (r: Self)
        ensures
            r.code == e.0,
            r.message@ == e.1@,
    {
        ErrorResponse { code: e.0, message: e.1.to_owned() }
    }
}

impl<'a> vstd::std_specs::convert::FromSpecImpl<(u16, &'a str)> for ErrorResponse {
    open spec fn obeys_from_spec() -> bool {
        false
    }

    open spec fn from_spec(e: (u16, &'a str)) -> Self {
        arbitrary()
    }
}

impl ErrorResponse {
    /// The reply body for a failure of the session core.
    pub fn for_error(e: AppError) -> (r: ErrorResponse)
        ensures
            r.code == status_of(e),
            r.message@ == message_of(e),
    {
        let code = e.status_code();
        let message = e.message();
        ErrorResponse::from((code, message))
    }
}

} // verus!
