//! Failures reported by the stores the library talks to, and the rejection
//! a handler answers with.
use vstd::prelude::*;

verus! {

/// What a failed database query reports, as far as the handlers read it.
#[derive(Debug)]
pub enum DbFailure {
    /// No row matched a query that expected one; `text` is the error's text.
    RowNotFound { text: String },
    /// The database refused the statement with `message`; `text` is the error's text.
    Database { message: String, text: String },
    /// Any other failure; `text` is the error's text.
    Other { text: String },
}

impl DbFailure {
    /// The error's text.
    pub open spec fn text_of(&self) -> Seq<char> {
        match self {
            DbFailure::RowNotFound { text } => text@,
            DbFailure::Database { text, .. } => text@,
            DbFailure::Other { text } => text@,
        }
    }

    /// The error's text, as the handlers print it.
    pub fn text(&self) -> (res: String)
        ensures
            res@ == self.text_of(),
    {
        match self {
            DbFailure::RowNotFound { text } => text.clone(),
            DbFailure::Database { text, .. } => text.clone(),
            DbFailure::Other { text } => text.clone(),
        }
    }
}

/// What a failed Redis command reports: the debug name of its kind and its
/// detail, where it has one.
#[derive(Debug)]
pub struct RedisFailure {
    pub kind: String,
    pub detail: Option<String>,
}

/// The text a handler answers a Redis failure with: `kind: detail`, or
/// `kind: No further detail provided`.
pub open spec fn redis_failure_text(f: RedisFailure) -> Seq<char> {
    f.kind@ + ": "@ + match f.detail {
        Some(d) => d@,
        None => "No further detail provided"@,
    }
}

/// An HTTP status and the text a handler answers with.
#[derive(Debug)]
pub struct Rejection {
    pub status: u16,
    pub message: String,
}

/// 400 Bad Request
pub const BAD_REQUEST: u16 = 400;
/// 401 Unauthorized
pub const UNAUTHORIZED: u16 = 401;
/// 403 Forbidden
pub const FORBIDDEN: u16 = 403;
/// 404 Not Found
pub const NOT_FOUND: u16 = 404;
/// 204 No Content
pub const NO_CONTENT: u16 = 204;
/// 500 Internal Server Error
pub const INTERNAL_SERVER_ERROR: u16 = 500;

impl View for Rejection {
    type V = (u16, Seq<char>);

    open spec fn view(&self) -> (u16, Seq<char>) {
        (self.status, self.message@)
    }
}

impl Rejection {
    /// A rejection with a status and a text.
    pub fn new(status: u16, message: &str) -> (res: Rejection)
        ensures
            res.status == status,
            res.message@ == message@,
    {
        Rejection { status, message: String::from_str(message) }
    }
}

/// The answer to a Redis failure: 500 with the failure's text.
pub fn redisRejection(f: &RedisFailure) -> (res: Rejection)
    ensures
        res@ == (INTERNAL_SERVER_ERROR, redis_failure_text(*f)),
{
    let mut message = f.kind.clone();
    message.append(": ");
    match &f.detail {
        Some(d) => message.append(d.as_str()),
        None => message.append("No further detail provided"),
    }
    Rejection { status: INTERNAL_SERVER_ERROR, message }
}

/// How a handler reads the number of rows that a write changed: none is the
/// client's fault (400 with `zero_message`), one is success, more is a fault
/// of the server (500).
pub fn rowsAffectedOutcome(rows: u64, zero_message: &str) -> (res: Result<(), Rejection>)
    ensures
        rows == 0 ==> (res matches Err(r) && r.status == BAD_REQUEST && r.message@ == zero_message@),
        rows == 1 ==> res is Ok,
        rows > 1 ==> (res matches Err(r) && r.status == INTERNAL_SERVER_ERROR
            && r.message@ == "This should not have happened."@),
{
    if rows == 0 {
        Err(Rejection::new(BAD_REQUEST, zero_message))
    } else if rows == 1 {
        Ok(())
    } else {
        Err(Rejection::new(INTERNAL_SERVER_ERROR, "This should not have happened."))
    }
}

} // verus!
