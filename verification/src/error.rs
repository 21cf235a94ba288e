//! The errors of the backend and how they are reported.

use vstd::prelude::*;
use vstd::string::*;

verus! {

/// What can go wrong. The errors of the store, of the file system and of
/// the JSON codec are carried by their messages.
#[derive(Debug)]
pub enum BackendError {
    /// The store failed to read or write.
    Database(String),
    /// The file system failed.
    Io(String),
    /// JSON was malformed, or a value could not be encoded.
    SerdeJson(String),
    /// The master settings have not been stored yet.
    ConfigNotFound,
    /// The named thing, a template or a tool, is unknown.
    NotFound(String),
    /// Anything else.
    Other(String),
}

/// The HTTP status that stands for an error: 400 where the caller sent
/// something malformed, 404 where something is unknown, 500 otherwise.
pub open spec fn status_code_of(e: BackendError) -> int {
    match e {
        BackendError::Database(_) => 500,
        BackendError::Io(_) => 500,
        BackendError::SerdeJson(_) => 400,
        BackendError::ConfigNotFound => 404,
        BackendError::NotFound(_) => 404,
        BackendError::Other(_) => 500,
    }
}

/// The message of an error.
pub open spec fn message_of(e: BackendError) -> Seq<char> {
    match e {
        BackendError::Database(m) => "database error: "@ + m@,
        BackendError::Io(m) => "io error: "@ + m@,
        BackendError::SerdeJson(m) => "serialization error: "@ + m@,
        BackendError::ConfigNotFound => "configuration not found"@,
        BackendError::NotFound(m) => m@ + " not found"@,
        BackendError::Other(m) => "other error: "@ + m@,
    }
}

/// `prefix` followed by `rest`.
fn prefixed(prefix: &str, rest: &String) -> (r: String)
    ensures
        r@ == prefix@ + rest@,
{
    let mut out = String::new();
    out.append(prefix);
    out.append(rest.as_str());
    assert(out@ =~= prefix@ + rest@);
    out
}

impl BackendError {
    /// The HTTP status under which the error is answered.
    pub fn status_code(&self) -> (code: u16)
        ensures
            code == status_code_of(*self),
    {
        match self {
            BackendError::Database(_) => 500,
            BackendError::Io(_) => 500,
            BackendError::SerdeJson(_) => 400,
            BackendError::ConfigNotFound => 404,
            BackendError::NotFound(_) => 404,
            BackendError::Other(_) => 500,
        }
    }

    /// The message of the error, as it is shown to the user.
    pub fn message(&self) -> (text: String)
        ensures
            text@ == message_of(*self),
    {
        match self {
            BackendError::Database(m) => prefixed("database error: ", m),
            BackendError::Io(m) => prefixed("io error: ", m),
            BackendError::SerdeJson(m) => prefixed("serialization error: ", m),
            BackendError::ConfigNotFound => "configuration not found".to_string(),
            BackendError::NotFound(m) => {
                let mut out = m.clone();
                out.append(" not found");
                out
            },
            BackendError::Other(m) => prefixed("other error: ", m),
        }
    }
}

/// The result of an operation of the backend.
pub type BackendResult<T> = Result<T, BackendError>;

} // verus!
