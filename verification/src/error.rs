//! Error taxonomy of the gateway and the response that each error becomes.

use vstd::prelude::*;
use vstd::string::*;

verus! {

/// Numeric code sent to the front end beside an error message.
#[derive(Debug, Clone, Copy, PartialEq, Eq, Structural)]
pub enum ErrorCode {
    /// Credentials provided do not match the records.
    InvalidCredentials,
    /// Login attempted with an unconfirmed email.
    EmailNotConfirmed,
    /// Too many failed login attempts.
    TooManyLoginAttempts,
    /// An authentication token is invalid.
    InvalidToken,
    /// An authentication token has expired.
    ExpiredToken,
    /// A token is required but was not provided.
    TokenRequired,
    /// Registration with an email that already exists.
    EmailAlreadyExists,
    /// Password sign-in attempted where Google sign-in is expected.
    UseGoogleLogin,
    /// Password sign-in attempted where GitHub sign-in is expected.
    UseGithubLogin,
    /// OAuth attempted where email and password are expected.
    UseEmailLogin,
    /// The email is not verified with the OAuth provider.
    EmailNotVerified,
    /// Input fails validation rules.
    InvalidInput,
    /// The password does not meet strength requirements.
    PasswordTooWeak,
    /// The email format is invalid.
    EmailInvalid,
    /// A confirmation token is invalid or has expired.
    InvalidOrExpiredConfirmationToken,
    /// Access to a resource is denied.
    AccessDenied,
    /// Permissions are insufficient for an action.
    InsufficientPermissions,
    /// A requested resource cannot be found.
    ResourceNotFound,
    /// A database operation failed.
    DatabaseError,
    /// An unexpected server error occurred.
    InternalServerError,
}

impl ErrorCode {
    /// The number that stands for this code on the wire.
    pub open spec fn number(self) -> u32 {
        match self {
            ErrorCode::InvalidCredentials => 1001,
            ErrorCode::EmailNotConfirmed => 1002,
            ErrorCode::TooManyLoginAttempts => 1003,
            ErrorCode::InvalidToken => 1004,
            ErrorCode::ExpiredToken => 1005,
            ErrorCode::TokenRequired => 1006,
            ErrorCode::EmailAlreadyExists => 1007,
            ErrorCode::UseGoogleLogin => 1008,
            ErrorCode::UseGithubLogin => 1009,
            ErrorCode::UseEmailLogin => 1010,
            ErrorCode::EmailNotVerified => 1011,
            ErrorCode::InvalidInput => 2001,
            ErrorCode::PasswordTooWeak => 2002,
            ErrorCode::EmailInvalid => 2003,
            ErrorCode::InvalidOrExpiredConfirmationToken => 2004,
            ErrorCode::AccessDenied => 3001,
            ErrorCode::InsufficientPermissions => 3002,
            ErrorCode::ResourceNotFound => 4001,
            ErrorCode::DatabaseError => 5001,
            ErrorCode::InternalServerError => 5002,
        }
    }

    /// Returns the number that stands for this code on the wire.
    pub fn as_u32(self) -> (n: u32)
        ensures
            n == self.number(),
    {
        match self {
            ErrorCode::InvalidCredentials => 1001,
            ErrorCode::EmailNotConfirmed => 1002,
            ErrorCode::TooManyLoginAttempts => 1003,
            ErrorCode::InvalidToken => 1004,
            ErrorCode::ExpiredToken => 1005,
            ErrorCode::TokenRequired => 1006,
            ErrorCode::EmailAlreadyExists => 1007,
            ErrorCode::UseGoogleLogin => 1008,
            ErrorCode::UseGithubLogin => 1009,
            ErrorCode::UseEmailLogin => 1010,
            ErrorCode::EmailNotVerified => 1011,
            ErrorCode::InvalidInput => 2001,
            ErrorCode::PasswordTooWeak => 2002,
            ErrorCode::EmailInvalid => 2003,
            ErrorCode::InvalidOrExpiredConfirmationToken => 2004,
            ErrorCode::AccessDenied => 3001,
            ErrorCode::InsufficientPermissions => 3002,
            ErrorCode::ResourceNotFound => 4001,
            ErrorCode::DatabaseError => 5001,
            ErrorCode::InternalServerError => 5002,
        }
    }
}


/// HTTP status that an error response carries.
#[derive(Debug, Clone, Copy, PartialEq, Eq, Structural)]
pub enum HttpStatus {
    /// 400
    BadRequest,
    /// 401
    Unauthorized,
    /// 403
    Forbidden,
    /// 404
    NotFound,
    /// 409
    Conflict,
    /// 429
    TooManyRequests,
    /// 500
    InternalServerError,
}

impl HttpStatus {
    /// The three-digit status number.
    pub open spec fn number(self) -> u16 {
        match self {
            HttpStatus::BadRequest => 400,
            HttpStatus::Unauthorized => 401,
            HttpStatus::Forbidden => 403,
            HttpStatus::NotFound => 404,
            HttpStatus::Conflict => 409,
            HttpStatus::TooManyRequests => 429,
            HttpStatus::InternalServerError => 500,
        }
    }

    /// Returns the three-digit status number.
    pub fn as_u16(self) -> (n: u16)
        ensures
            n == self.number(),
    {
        match self {
            HttpStatus::BadRequest => 400,
            HttpStatus::Unauthorized => 401,
            HttpStatus::Forbidden => 403,
            HttpStatus::NotFound => 404,
            HttpStatus::Conflict => 409,
            HttpStatus::TooManyRequests => 429,
            HttpStatus::InternalServerError => 500,
        }
    }
}

/// The ways in which authentication fails.
#[derive(Debug, Clone, PartialEq, Eq)]
pub enum AuthenticationError {
    /// Security-sensitive failure; the detail is never shown to the client.
    InvalidCredentials(String),
    /// Failure whose text may be shown to the client as it is.
    ClientError(String),
    /// Email not confirmed.
    EmailNotConfirmed,
    /// Too many login attempts.
    TooManyAttempts,
    /// Invalid or expired token; the detail is never shown to the client.
    InvalidToken(String),
    /// Email already registered.
    EmailAlreadyExists,
    /// Google login is to be used instead.
    UseGoogleLogin,
    /// GitHub login is to be used instead.
    UseGithubLogin,
    /// Email and password login is to be used instead.
    UseEmailLogin,
    /// Email not verified with the provider.
    EmailNotVerified,
}

/// Mathematical value of an [`AuthenticationError`].
pub enum AuthenticationErrorView {
    InvalidCredentials(Seq<char>),
    ClientError(Seq<char>),
    EmailNotConfirmed,
    TooManyAttempts,
    InvalidToken(Seq<char>),
    EmailAlreadyExists,
    UseGoogleLogin,
    UseGithubLogin,
    UseEmailLogin,
    EmailNotVerified,
}

impl View for AuthenticationError {
    type V = AuthenticationErrorView;

    open spec fn view(&self) -> AuthenticationErrorView {
        match self {
            AuthenticationError::InvalidCredentials(d) => AuthenticationErrorView::InvalidCredentials(d@),
            AuthenticationError::ClientError(d) => AuthenticationErrorView::ClientError(d@),
            AuthenticationError::EmailNotConfirmed => AuthenticationErrorView::EmailNotConfirmed,
            AuthenticationError::TooManyAttempts => AuthenticationErrorView::TooManyAttempts,
            AuthenticationError::InvalidToken(d) => AuthenticationErrorView::InvalidToken(d@),
            AuthenticationError::EmailAlreadyExists => AuthenticationErrorView::EmailAlreadyExists,
            AuthenticationError::UseGoogleLogin => AuthenticationErrorView::UseGoogleLogin,
            AuthenticationError::UseGithubLogin => AuthenticationErrorView::UseGithubLogin,
            AuthenticationError::UseEmailLogin => AuthenticationErrorView::UseEmailLogin,
            AuthenticationError::EmailNotVerified => AuthenticationErrorView::EmailNotVerified,
        }
    }
}

impl AuthenticationErrorView {
    /// Text of the error as a log line shows it.
    pub open spec fn message(self) -> Seq<char> {
        match self {
            AuthenticationErrorView::InvalidCredentials(_) => "Invalid credentials"@,
            AuthenticationErrorView::ClientError(d) => d,
            AuthenticationErrorView::EmailNotConfirmed => "Email not confirmed"@,
            AuthenticationErrorView::TooManyAttempts => "Too many login attempts"@,
            AuthenticationErrorView::InvalidToken(_) => "Invalid or expired token"@,
            AuthenticationErrorView::EmailAlreadyExists => "Email already registered"@,
            AuthenticationErrorView::UseGoogleLogin => "Use Google login"@,
            AuthenticationErrorView::UseGithubLogin => "Use GitHub login"@,
            AuthenticationErrorView::UseEmailLogin => "Use email/password login"@,
            AuthenticationErrorView::EmailNotVerified => "Email not verified"@,
        }
    }

    /// Status of the response that the error becomes.
    pub open spec fn status(self) -> HttpStatus {
        match self {
            AuthenticationErrorView::TooManyAttempts => HttpStatus::TooManyRequests,
            AuthenticationErrorView::EmailAlreadyExists => HttpStatus::Conflict,
            _ => HttpStatus::Unauthorized,
        }
    }

    /// Text that the client is shown.
    pub open spec fn public_message(self) -> Seq<char> {
        match self {
            AuthenticationErrorView::InvalidCredentials(_) => "Invalid credentials"@,
            AuthenticationErrorView::ClientError(d) => d,
            AuthenticationErrorView::EmailNotConfirmed => "Email not confirmed"@,
            AuthenticationErrorView::TooManyAttempts => "Too many login attempts, please try again later"@,
            AuthenticationErrorView::InvalidToken(_) => "Invalid or expired token"@,
            AuthenticationErrorView::EmailAlreadyExists => "Email already registered"@,
            AuthenticationErrorView::UseGoogleLogin => "This email is registered with Google. Please use 'Sign in with Google' instead."@,
            AuthenticationErrorView::UseGithubLogin => "This email is registered with GitHub. Please use 'Sign in with GitHub' instead."@,
            AuthenticationErrorView::UseEmailLogin => "This email is already registered. Please login with your password."@,
            AuthenticationErrorView::EmailNotVerified => "Email not verified with the provider"@,
        }
    }

    /// Code that the client is sent, if any.
    pub open spec fn code(self) -> Option<ErrorCode> {
        match self {
            AuthenticationErrorView::InvalidCredentials(_) => Some(ErrorCode::InvalidCredentials),
            AuthenticationErrorView::ClientError(_) => None,
            AuthenticationErrorView::EmailNotConfirmed => Some(ErrorCode::EmailNotConfirmed),
            AuthenticationErrorView::TooManyAttempts => Some(ErrorCode::TooManyLoginAttempts),
            AuthenticationErrorView::InvalidToken(_) => Some(ErrorCode::InvalidToken),
            AuthenticationErrorView::EmailAlreadyExists => Some(ErrorCode::EmailAlreadyExists),
            AuthenticationErrorView::UseGoogleLogin => Some(ErrorCode::UseGoogleLogin),
            AuthenticationErrorView::UseGithubLogin => Some(ErrorCode::UseGithubLogin),
            AuthenticationErrorView::UseEmailLogin => Some(ErrorCode::UseEmailLogin),
            AuthenticationErrorView::EmailNotVerified => Some(ErrorCode::EmailNotVerified),
        }
    }
}

impl AuthenticationError {
    /// Returns the text of the error as a log line shows it.
    pub fn message(&self) -> (m: String)
        ensures
            m@ == self@.message(),
    {
        match self {
            AuthenticationError::InvalidCredentials(_) => String::from_str("Invalid credentials"),
            AuthenticationError::ClientError(d) => d.clone(),
            AuthenticationError::EmailNotConfirmed => String::from_str("Email not confirmed"),
            AuthenticationError::TooManyAttempts => String::from_str("Too many login attempts"),
            AuthenticationError::InvalidToken(_) => String::from_str("Invalid or expired token"),
            AuthenticationError::EmailAlreadyExists => String::from_str("Email already registered"),
            AuthenticationError::UseGoogleLogin => String::from_str("Use Google login"),
            AuthenticationError::UseGithubLogin => String::from_str("Use GitHub login"),
            AuthenticationError::UseEmailLogin => String::from_str("Use email/password login"),
            AuthenticationError::EmailNotVerified => String::from_str("Email not verified"),
        }
    }
}

/// The ways in which a request fails validation.
#[derive(Debug, Clone, PartialEq, Eq)]
pub enum ValidationError {
    /// Generic validation failure; the text is shown to the client.
    InvalidInput(String),
    /// Password not strong enough.
    PasswordTooWeak(String),
    /// Email format invalid.
    EmailInvalid(String),
    /// Invalid or expired confirmation token.
    InvalidConfirmationToken,
}

/// Mathematical value of a [`ValidationError`].
pub enum ValidationErrorView {
    InvalidInput(Seq<char>),
    PasswordTooWeak(Seq<char>),
    EmailInvalid(Seq<char>),
    InvalidConfirmationToken,
}

impl View for ValidationError {
    type V = ValidationErrorView;

    open spec fn view(&self) -> ValidationErrorView {
        match self {
            ValidationError::InvalidInput(d) => ValidationErrorView::InvalidInput(d@),
            ValidationError::PasswordTooWeak(d) => ValidationErrorView::PasswordTooWeak(d@),
            ValidationError::EmailInvalid(d) => ValidationErrorView::EmailInvalid(d@),
            ValidationError::InvalidConfirmationToken => ValidationErrorView::InvalidConfirmationToken,
        }
    }
}

impl ValidationErrorView {
    /// Text of the error as a log line shows it.
    pub open spec fn message(self) -> Seq<char> {
        match self {
            ValidationErrorView::InvalidInput(d) => d,
            ValidationErrorView::PasswordTooWeak(_) => "Password is too weak"@,
            ValidationErrorView::EmailInvalid(_) => "Email is invalid"@,
            ValidationErrorView::InvalidConfirmationToken => "Invalid or expired confirmation token"@,
        }
    }

    /// Text that the client is shown.
    pub open spec fn public_message(self) -> Seq<char> {
        match self {
            ValidationErrorView::InvalidInput(d) => d,
            ValidationErrorView::PasswordTooWeak(d) => d,
            ValidationErrorView::EmailInvalid(d) => d,
            ValidationErrorView::InvalidConfirmationToken => "Invalid or expired confirmation token"@,
        }
    }

    /// Code that the client is sent.
    pub open spec fn code(self) -> ErrorCode {
        match self {
            ValidationErrorView::InvalidInput(_) => ErrorCode::InvalidInput,
            ValidationErrorView::PasswordTooWeak(_) => ErrorCode::PasswordTooWeak,
            ValidationErrorView::EmailInvalid(_) => ErrorCode::EmailInvalid,
            ValidationErrorView::InvalidConfirmationToken => ErrorCode::InvalidOrExpiredConfirmationToken,
        }
    }
}

impl ValidationError {
    /// Returns the text of the error as a log line shows it.
    pub fn message(&self) -> (m: String)
        ensures
            m@ == self@.message(),
    {
        match self {
            ValidationError::InvalidInput(d) => d.clone(),
            ValidationError::PasswordTooWeak(_) => String::from_str("Password is too weak"),
            ValidationError::EmailInvalid(_) => String::from_str("Email is invalid"),
            ValidationError::InvalidConfirmationToken => String::from_str(
                "Invalid or expired confirmation token",
            ),
        }
    }
}

/// The ways in which authorization fails.
#[derive(Debug, Clone, PartialEq, Eq)]
pub enum AuthorizationError {
    /// Access denied; the detail is never shown to the client.
    AccessDenied(String),
    /// Insufficient permissions; the detail is never shown to the client.
    InsufficientPermissions(String),
}

/// Mathematical value of an [`AuthorizationError`].
pub enum AuthorizationErrorView {
    AccessDenied(Seq<char>),
    InsufficientPermissions(Seq<char>),
}

impl View for AuthorizationError {
    type V = AuthorizationErrorView;

    open spec fn view(&self) -> AuthorizationErrorView {
        match self {
            AuthorizationError::AccessDenied(d) => AuthorizationErrorView::AccessDenied(d@),
            AuthorizationError::InsufficientPermissions(d) => AuthorizationErrorView::InsufficientPermissions(d@),
        }
    }
}

impl AuthorizationErrorView {
    /// Text of the error, in a log line and before the client alike.
    pub open spec fn message(self) -> Seq<char> {
        match self {
            AuthorizationErrorView::AccessDenied(_) => "Access denied"@,
            AuthorizationErrorView::InsufficientPermissions(_) => "Insufficient permissions"@,
        }
    }

    /// Code that the client is sent.
    pub open spec fn code(self) -> ErrorCode {
        match self {
            AuthorizationErrorView::AccessDenied(_) => ErrorCode::AccessDenied,
            AuthorizationErrorView::InsufficientPermissions(_) => ErrorCode::InsufficientPermissions,
        }
    }
}

impl AuthorizationError {
    /// Returns the text of the error as a log line shows it.
    pub fn message(&self) -> (m: String)
        ensures
            m@ == self@.message(),
    {
        match self {
            AuthorizationError::AccessDenied(_) => String::from_str("Access denied"),
            AuthorizationError::InsufficientPermissions(_) => String::from_str(
                "Insufficient permissions",
            ),
        }
    }
}

/// The result of an operation of the server as a whole.
pub type MicrosandboxServerResult<T> = Result<T, MicrosandboxServerError>;

/// The result of an operation on one request.
pub type ServerResult<T> = Result<T, ServerError>;

/// Every error that a request to the gateway can end in.
#[derive(Debug, Clone, PartialEq, Eq)]
pub enum ServerError {
    /// Authentication failed.
    Authentication(AuthenticationError),
    /// The caller lacks permission for the resource.
    AuthorizationError(AuthorizationError),
    /// A requested resource was not found; the text is shown to the client.
    NotFound(String),
    /// A database operation failed; the detail is never shown to the client.
    DatabaseError(String),
    /// The request failed validation.
    ValidationError(ValidationError),
    /// An unexpected internal error; the detail is never shown to the client.
    InternalError(String),
}

/// Mathematical value of a [`ServerError`].
pub enum ServerErrorView {
    Authentication(AuthenticationErrorView),
    AuthorizationError(AuthorizationErrorView),
    NotFound(Seq<char>),
    DatabaseError(Seq<char>),
    ValidationError(ValidationErrorView),
    InternalError(Seq<char>),
}

impl View for ServerError {
    type V = ServerErrorView;

    open spec fn view(&self) -> ServerErrorView {
        match self {
            ServerError::Authentication(e) => ServerErrorView::Authentication(e@),
            ServerError::AuthorizationError(e) => ServerErrorView::AuthorizationError(e@),
            ServerError::NotFound(d) => ServerErrorView::NotFound(d@),
            ServerError::DatabaseError(d) => ServerErrorView::DatabaseError(d@),
            ServerError::ValidationError(e) => ServerErrorView::ValidationError(e@),
            ServerError::InternalError(d) => ServerErrorView::InternalError(d@),
        }
    }
}

impl ServerErrorView {
    /// Text of the error as a log line shows it: the kind, then the cause.
    pub open spec fn message(self) -> Seq<char> {
        match self {
            ServerErrorView::Authentication(e) => "Authentication failed: "@ + e.message(),
            ServerErrorView::AuthorizationError(e) => "Authorization failed: "@ + e.message(),
            ServerErrorView::NotFound(d) => "Resource not found: "@ + d,
            ServerErrorView::DatabaseError(d) => "Database error: "@ + d,
            ServerErrorView::ValidationError(e) => "Validation error: "@ + e.message(),
            ServerErrorView::InternalError(d) => "Internal server error: "@ + d,
        }
    }

    /// Status of the response that the error becomes.
    pub open spec fn status(self) -> HttpStatus {
        match self {
            ServerErrorView::Authentication(e) => e.status(),
            ServerErrorView::AuthorizationError(_) => HttpStatus::Forbidden,
            ServerErrorView::NotFound(_) => HttpStatus::NotFound,
            ServerErrorView::DatabaseError(_) => HttpStatus::InternalServerError,
            ServerErrorView::ValidationError(_) => HttpStatus::BadRequest,
            ServerErrorView::InternalError(_) => HttpStatus::InternalServerError,
        }
    }

    /// Text that the client is shown.
    pub open spec fn public_message(self) -> Seq<char> {
        match self {
            ServerErrorView::Authentication(e) => e.public_message(),
            ServerErrorView::AuthorizationError(e) => e.message(),
            ServerErrorView::NotFound(d) => d,
            ServerErrorView::DatabaseError(_) => "Internal server error"@,
            ServerErrorView::ValidationError(e) => e.public_message(),
            ServerErrorView::InternalError(_) => "Internal server error"@,
        }
    }

    /// Code that the client is sent, if any.
    pub open spec fn code(self) -> Option<ErrorCode> {
        match self {
            ServerErrorView::Authentication(e) => e.code(),
            ServerErrorView::AuthorizationError(e) => Some(e.code()),
            ServerErrorView::NotFound(_) => Some(ErrorCode::ResourceNotFound),
            ServerErrorView::DatabaseError(_) => Some(ErrorCode::DatabaseError),
            ServerErrorView::ValidationError(e) => Some(e.code()),
            ServerErrorView::InternalError(_) => Some(ErrorCode::InternalServerError),
        }
    }

    /// The number of [`Self::code`], if there is a code.
    pub open spec fn code_number(self) -> Option<u32> {
        match self.code() {
            Some(c) => Some(c.number()),
            None => None,
        }
    }

    /// The whole response that the error becomes.
    pub open spec fn response(self) -> ErrorResponseView {
        ErrorResponseView {
            status: self.status(),
            error: self.public_message(),
            code: self.code_number(),
        }
    }
}

/// Whether the detail of an error is kept from the client.
pub open spec fn is_private(e: ServerErrorView) -> bool {
    match e {
        ServerErrorView::Authentication(AuthenticationErrorView::InvalidCredentials(_)) => true,
        ServerErrorView::Authentication(AuthenticationErrorView::InvalidToken(_)) => true,
        ServerErrorView::AuthorizationError(_) => true,
        ServerErrorView::DatabaseError(_) => true,
        ServerErrorView::InternalError(_) => true,
        _ => false,
    }
}

/// The error with another detail in place of its own.
pub open spec fn with_detail(e: ServerErrorView, d: Seq<char>) -> ServerErrorView {
    match e {
        ServerErrorView::Authentication(
            AuthenticationErrorView::InvalidCredentials(_),
        ) => ServerErrorView::Authentication(AuthenticationErrorView::InvalidCredentials(d)),
        ServerErrorView::Authentication(
            AuthenticationErrorView::ClientError(_),
        ) => ServerErrorView::Authentication(AuthenticationErrorView::ClientError(d)),
        ServerErrorView::Authentication(
            AuthenticationErrorView::InvalidToken(_),
        ) => ServerErrorView::Authentication(AuthenticationErrorView::InvalidToken(d)),
        ServerErrorView::AuthorizationError(
            AuthorizationErrorView::AccessDenied(_),
        ) => ServerErrorView::AuthorizationError(AuthorizationErrorView::AccessDenied(d)),
        ServerErrorView::AuthorizationError(
            AuthorizationErrorView::InsufficientPermissions(_),
        ) => ServerErrorView::AuthorizationError(
            AuthorizationErrorView::InsufficientPermissions(d),
        ),
        ServerErrorView::NotFound(_) => ServerErrorView::NotFound(d),
        ServerErrorView::DatabaseError(_) => ServerErrorView::DatabaseError(d),
        ServerErrorView::ValidationError(
            ValidationErrorView::InvalidInput(_),
        ) => ServerErrorView::ValidationError(ValidationErrorView::InvalidInput(d)),
        ServerErrorView::ValidationError(
            ValidationErrorView::PasswordTooWeak(_),
        ) => ServerErrorView::ValidationError(ValidationErrorView::PasswordTooWeak(d)),
        ServerErrorView::ValidationError(
            ValidationErrorView::EmailInvalid(_),
        ) => ServerErrorView::ValidationError(ValidationErrorView::EmailInvalid(d)),
        ServerErrorView::InternalError(_) => ServerErrorView::InternalError(d),
        other => other,
    }
}

/// A private detail never reaches the client: the response to an error whose
/// detail is kept from the client is the same whatever the detail says.
pub proof fn lemma_private_detail_never_shown(e: ServerErrorView, d: Seq<char>)
    requires
        is_private(e),
    ensures
        with_detail(e, d).response() == e.response(),
{
}

/// The thousands of a code tell the kind of the error, and the kind tells
/// the status: 1 for authentication, 2 for validation with status 400, 3 for
/// authorization with status 403, 4 for a missing resource with status 404,
/// 5 for a failure of the server with status 500.
pub proof fn lemma_code_tells_kind(e: ServerErrorView)
    ensures
        match e.code() {
            None => e matches ServerErrorView::Authentication(
                AuthenticationErrorView::ClientError(_),
            ),
            Some(c) => match e {
                ServerErrorView::Authentication(_) => c.number() / 1000 == 1,
                ServerErrorView::ValidationError(_) => c.number() / 1000 == 2 && e.status()
                    == HttpStatus::BadRequest,
                ServerErrorView::AuthorizationError(_) => c.number() / 1000 == 3 && e.status()
                    == HttpStatus::Forbidden,
                ServerErrorView::NotFound(_) => c.number() / 1000 == 4 && e.status()
                    == HttpStatus::NotFound,
                ServerErrorView::DatabaseError(_) => c.number() / 1000 == 5 && e.status()
                    == HttpStatus::InternalServerError,
                ServerErrorView::InternalError(_) => c.number() / 1000 == 5 && e.status()
                    == HttpStatus::InternalServerError,
            },
        },
{
}

/// No two codes share a number.
pub proof fn lemma_code_numbers_differ(a: ErrorCode, b: ErrorCode)
    requires
        a.number() == b.number(),
    ensures
        a == b,
{
}

/// What the client receives for an error: a status and a JSON body of the
/// fields `error` and `code`.
#[derive(Debug, Clone, PartialEq, Eq)]
pub struct ErrorResponse {
    /// Status of the HTTP response.
    pub status: HttpStatus,
    /// Text shown to the client.
    pub error: String,
    /// Numeric code for the front end.
    pub code: Option<u32>,
}

/// Mathematical value of an [`ErrorResponse`].
pub struct ErrorResponseView {
    pub status: HttpStatus,
    pub error: Seq<char>,
    pub code: Option<u32>,
}

impl View for ErrorResponse {
    type V = ErrorResponseView;

    open spec fn view(&self) -> ErrorResponseView {
        ErrorResponseView { status: self.status, error: self.error@, code: self.code }
    }
}

impl ServerError {
    /// Returns the text of the error as a log line shows it.
    pub fn message(&self) -> (m: String)
        ensures
            m@ == self@.message(),
    {
        match self {
            ServerError::Authentication(e) => {
                let inner = e.message();
                String::from_str("Authentication failed: ").concat(inner.as_str())
            },
            ServerError::AuthorizationError(e) => {
                let inner = e.message();
                String::from_str("Authorization failed: ").concat(inner.as_str())
            },
            ServerError::NotFound(d) => String::from_str("Resource not found: ").concat(d.as_str()),
            ServerError::DatabaseError(d) => String::from_str("Database error: ").concat(d.as_str()),
            ServerError::ValidationError(e) => {
                let inner = e.message();
                String::from_str("Validation error: ").concat(inner.as_str())
            },
            ServerError::InternalError(d) => String::from_str("Internal server error: ").concat(
                d.as_str(),
            ),
        }
    }

    /// Turns the error into the response that the client receives: the status
    /// for its kind, a text that holds no security-sensitive detail, and the
    /// numeric code.
    pub fn into_response(self) -> (r: ErrorResponse)
        ensures
            r@ == self@.response(),
    {
        let (status, error, code) = match self {
            ServerError::Authentication(auth_error) => match auth_error {
                AuthenticationError::InvalidCredentials(_) => (
                    HttpStatus::Unauthorized,
                    String::from_str("Invalid credentials"),
                    Some(ErrorCode::InvalidCredentials),
                ),
                AuthenticationError::ClientError(details) => (HttpStatus::Unauthorized, details, None),
                AuthenticationError::EmailNotConfirmed => (
                    HttpStatus::Unauthorized,
                    String::from_str("Email not confirmed"),
                    Some(ErrorCode::EmailNotConfirmed),
                ),
                AuthenticationError::TooManyAttempts => (
                    HttpStatus::TooManyRequests,
                    String::from_str("Too many login attempts, please try again later"),
                    Some(ErrorCode::TooManyLoginAttempts),
                ),
                AuthenticationError::InvalidToken(_) => (
                    HttpStatus::Unauthorized,
                    String::from_str("Invalid or expired token"),
                    Some(ErrorCode::InvalidToken),
                ),
                AuthenticationError::EmailAlreadyExists => (
                    HttpStatus::Conflict,
                    String::from_str("Email already registered"),
                    Some(ErrorCode::EmailAlreadyExists),
                ),
                AuthenticationError::UseGoogleLogin => (
                    HttpStatus::Unauthorized,
                    String::from_str(
                        "This email is registered with Google. Please use 'Sign in with Google' instead.",
                    ),
                    Some(ErrorCode::UseGoogleLogin),
                ),
                AuthenticationError::UseGithubLogin => (
                    HttpStatus::Unauthorized,
                    String::from_str(
                        "This email is registered with GitHub. Please use 'Sign in with GitHub' instead.",
                    ),
                    Some(ErrorCode::UseGithubLogin),
                ),
                AuthenticationError::UseEmailLogin => (
                    HttpStatus::Unauthorized,
                    String::from_str(
                        "This email is already registered. Please login with your password.",
                    ),
                    Some(ErrorCode::UseEmailLogin),
                ),
                AuthenticationError::EmailNotVerified => (
                    HttpStatus::Unauthorized,
                    String::from_str("Email not verified with the provider"),
                    Some(ErrorCode::EmailNotVerified),
                ),
            },
            ServerError::AuthorizationError(auth_error) => match auth_error {
                AuthorizationError::AccessDenied(_) => (
                    HttpStatus::Forbidden,
                    String::from_str("Access denied"),
                    Some(ErrorCode::AccessDenied),
                ),
                AuthorizationError::InsufficientPermissions(_) => (
                    HttpStatus::Forbidden,
                    String::from_str("Insufficient permissions"),
                    Some(ErrorCode::InsufficientPermissions),
                ),
            },
            ServerError::NotFound(details) => (
                HttpStatus::NotFound,
                details,
                Some(ErrorCode::ResourceNotFound),
            ),
            ServerError::DatabaseError(_) => (
                HttpStatus::InternalServerError,
                String::from_str("Internal server error"),
                Some(ErrorCode::DatabaseError),
            ),
            ServerError::ValidationError(validation_error) => match validation_error {
                ValidationError::InvalidInput(details) => (
                    HttpStatus::BadRequest,
                    details,
                    Some(ErrorCode::InvalidInput),
                ),
                ValidationError::PasswordTooWeak(details) => (
                    HttpStatus::BadRequest,
                    details,
                    Some(ErrorCode::PasswordTooWeak),
                ),
                ValidationError::EmailInvalid(details) => (
                    HttpStatus::BadRequest,
                    details,
                    Some(ErrorCode::EmailInvalid),
                ),
                ValidationError::InvalidConfirmationToken => (
                    HttpStatus::BadRequest,
                    String::from_str("Invalid or expired confirmation token"),
                    Some(ErrorCode::InvalidOrExpiredConfirmationToken),
                ),
            },
            ServerError::InternalError(_) => (
                HttpStatus::InternalServerError,
                String::from_str("Internal server error"),
                Some(ErrorCode::InternalServerError),
            ),
        };
        let code = match code {
            Some(c) => Some(c.as_u32()),
            None => None,
        };
        ErrorResponse { status, error, code }
    }
}

/// The errors that end the server as a whole.
#[derive(Debug, Clone, PartialEq, Eq)]
pub enum MicrosandboxServerError {
    /// The server failed to start.
    StartError(String),
    /// The server failed to stop.
    StopError(String),
    /// The server key could not be generated.
    KeyGenError(String),
    /// The configuration of the server failed.
    ConfigError(String),
    /// An error of input or output, as the text that it displays as.
    IoError(String),
    /// An error of the shared utilities, as the text that it displays as.
    Utils(String),
}

impl MicrosandboxServerError {
    /// Text of the error: the kind and the cause, or the words of the error
    /// that is passed on.
    pub open spec fn text(&self) -> Seq<char> {
        match self {
            MicrosandboxServerError::StartError(d) => "Server failed to start: "@ + d@,
            MicrosandboxServerError::StopError(d) => "Server failed to stop: "@ + d@,
            MicrosandboxServerError::KeyGenError(d) => "Server key failed to generate: "@ + d@,
            MicrosandboxServerError::ConfigError(d) => "Server configuration failed: "@ + d@,
            MicrosandboxServerError::IoError(d) => d@,
            MicrosandboxServerError::Utils(d) => d@,
        }
    }

    /// Returns the text of the error.
    pub fn message(&self) -> (m: String)
        ensures
            m@ == self.text(),
    {
        match self {
            MicrosandboxServerError::StartError(d) => String::from_str(
                "Server failed to start: ",
            ).concat(d.as_str()),
            MicrosandboxServerError::StopError(d) => String::from_str(
                "Server failed to stop: ",
            ).concat(d.as_str()),
            MicrosandboxServerError::KeyGenError(d) => String::from_str(
                "Server key failed to generate: ",
            ).concat(d.as_str()),
            MicrosandboxServerError::ConfigError(d) => String::from_str(
                "Server configuration failed: ",
            ).concat(d.as_str()),
            MicrosandboxServerError::IoError(d) => d.clone(),
            MicrosandboxServerError::Utils(d) => d.clone(),
        }
    }
}

} // verus!
