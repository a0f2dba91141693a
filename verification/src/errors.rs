//! The errors that the backend reports to its clients, and how each of them
//! is answered.

use vstd::prelude::*;
use vstd::string::*;

verus! {

/// Everything that can go wrong while a request is served. Each variant
/// carries the message meant for the client; a failed validation carries one
/// message for each rule that was broken.
#[derive(Debug, PartialEq)]
pub enum ApiError {
    BadRequest(String),
    BlockingError(String),
    CacheError(String),
    CannotDecodeJwtToken(String),
    CannotEncodeJwtToken(String),
    InternalServerError(String),
    NotFound(String),
    ParseError(String),
    PoolError(String),
    ValidationError(Vec<String>),
    Unauthorized(String),
}

/// Status of a response that tells the client its request was at fault.
pub const STATUS_BAD_REQUEST: u16 = 400;

/// Status of a response that tells the client the server was at fault.
pub const STATUS_INTERNAL_SERVER_ERROR: u16 = 500;

/// A failed database operation, as far as the backend looks at it.
pub enum DatabaseError {
    /// The database refused a statement, with a message and perhaps details.
    Reported { unique_violation: bool, message: String, details: Option<String> },
    /// Anything else: no connection, no row, a value that did not convert.
    Other,
}

/// The text of `"Unknown database error"`.
pub open spec fn unknown_database_error_text() -> Seq<char> {
    "Unknown database error"@
}

/// The text of `"Internal Server Error"`.
pub open spec fn internal_server_error_text() -> Seq<char> {
    "Internal Server Error"@
}

impl DatabaseError {
    /// What the client is told about a statement that broke a uniqueness
    /// rule: the details where the database gave some, else its message.
    pub open spec fn client_text(&self) -> Seq<char>
        recommends
            self is Reported,
    {
        match self {
            DatabaseError::Reported { details: Some(text), .. } => text@,
            DatabaseError::Reported { message, details: None, .. } => message@,
            DatabaseError::Other => Seq::empty(),
        }
    }

    /// Whether the failure is the client's: a statement that broke a
    /// uniqueness rule.
    pub open spec fn is_unique_violation(&self) -> bool {
        self matches DatabaseError::Reported { unique_violation, .. } && *unique_violation
    }
}

impl ApiError {
    /// The message of the error. A failed validation has none of its own:
    /// its messages are those of the broken rules.
    pub open spec fn message_text(&self) -> Seq<char> {
        match self {
            ApiError::BadRequest(m) => m@,
            ApiError::BlockingError(m) => m@,
            ApiError::CacheError(m) => m@,
            ApiError::CannotDecodeJwtToken(m) => m@,
            ApiError::CannotEncodeJwtToken(m) => m@,
            ApiError::InternalServerError(m) => m@,
            ApiError::NotFound(m) => m@,
            ApiError::ParseError(m) => m@,
            ApiError::PoolError(m) => m@,
            ApiError::ValidationError(_) => Seq::empty(),
            ApiError::Unauthorized(m) => m@,
        }
    }

    /// The status with which the error is answered.
    pub open spec fn status(&self) -> u16 {
        if self is BadRequest {
            STATUS_BAD_REQUEST
        } else {
            STATUS_INTERNAL_SERVER_ERROR
        }
    }

    /// The body with which the error is answered: a bad request is told what
    /// was wrong with it, every other error is kept from the client.
    pub open spec fn response_text(&self) -> Seq<char> {
        match self {
            ApiError::BadRequest(m) => m@,
            _ => internal_server_error_text(),
        }
    }

    /// The error as text: its message, empty for a failed validation.
    pub fn message(&self) -> (text: String)
        ensures
            text@ == self.message_text(),
    {
        match self {
            ApiError::BadRequest(m) => m.clone(),
            ApiError::BlockingError(m) => m.clone(),
            ApiError::CacheError(m) => m.clone(),
            ApiError::CannotDecodeJwtToken(m) => m.clone(),
            ApiError::CannotEncodeJwtToken(m) => m.clone(),
            ApiError::InternalServerError(m) => m.clone(),
            ApiError::NotFound(m) => m.clone(),
            ApiError::ParseError(m) => m.clone(),
            ApiError::PoolError(m) => m.clone(),
            ApiError::ValidationError(_) => String::new(),
            ApiError::Unauthorized(m) => m.clone(),
        }
    }

    /// The status with which the error is answered: 400 for a bad request,
    /// 500 for every other error.
    pub fn status_code(&self) -> (code: u16)
        ensures
            code == self.status(),
            code == 400 <==> self is BadRequest,
            code == 500 <==> !(self is BadRequest),
    {
        match self {
            ApiError::BadRequest(_) => STATUS_BAD_REQUEST,
            _ => STATUS_INTERNAL_SERVER_ERROR,
        }
    }

    /// The body with which the error is answered.
    pub fn response_body(&self) -> (body: String)
        ensures
            body@ == self.response_text(),
    {
        match self {
            ApiError::BadRequest(m) => m.clone(),
            _ => "Internal Server Error".to_owned(),
        }
    }

    /// The error that stands for a failed database operation. A statement
    /// that broke a uniqueness rule is the client's fault and is reported
    /// with what the database said of it; everything else is an internal
    /// error that says no more than that.
    pub fn from_database_error(error: DatabaseError) -> (api_error: ApiError)
        ensures
            error.is_unique_violation() ==> api_error is BadRequest,
            !error.is_unique_violation() ==> api_error is InternalServerError,
            api_error.message_text() == if error.is_unique_violation() {
                error.client_text()
            } else {
                unknown_database_error_text()
            },
    {
        match error {
            DatabaseError::Reported { unique_violation, message, details } => {
                if unique_violation {
                    let text = match details {
                        Some(text) => text,
                        None => message,
                    };
                    return ApiError::BadRequest(text);
                }
                ApiError::InternalServerError("Unknown database error".to_owned())
            },
            DatabaseError::Other => ApiError::InternalServerError(
                "Unknown database error".to_owned(),
            ),
        }
    }
}

/// The messages of an error as the client receives them.
#[derive(Debug, PartialEq)]
pub struct ErrorResponse {
    errors: Vec<String>,
}

impl DeepView for ErrorResponse {
    type V = Seq<Seq<char>>;

    closed spec fn deep_view(&self) -> Seq<Seq<char>> {
        self.errors.deep_view()
    }
}

impl ErrorResponse {
    /// A response with the one message `error`.
    pub fn from_message(error: &String) -> (response: ErrorResponse)
        ensures
            response.deep_view() == seq![error@],
    {
        let mut errors: Vec<String> = Vec::new();
        errors.push(error.clone());
        assert(errors.deep_view() =~= seq![error@]);
        ErrorResponse { errors }
    }

    /// A response with the messages `errors`, in their order.
    pub fn from_messages(errors: Vec<String>) -> (response: ErrorResponse)
        ensures
            response.deep_view() == errors.deep_view(),
    {
        ErrorResponse { errors }
    }

    /// The messages of the response.
    pub fn errors(&self) -> (errors: &Vec<String>)
        ensures
            errors.deep_view() == self.deep_view(),
    {
        &self.errors
    }
}

} // verus!
