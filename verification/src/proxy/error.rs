//! The failures of the name-service proxy.

use vstd::prelude::*;
use vstd::string::StringExecFns;
use crate::text::concat2;

verus! {

/// What kind of failure a failure is.
#[derive(Debug, Clone, Copy, PartialEq, Eq, Structural)]
pub enum ErrorType {
    BadRequest,
    Connection,
    Generic,
    Internal,
    NotFound,
}

/// A failure and what is to be told of it.
#[derive(Debug, Clone, PartialEq, Eq)]
pub struct Error {
    pub error: ErrorType,
    pub message: String,
}

impl ErrorType {
    /// The HTTP status with which a failure of this kind is answered.
    pub open spec fn spec_status(self) -> u16 {
        match self {
            ErrorType::BadRequest => 400,
            ErrorType::Connection => 500,
            ErrorType::Generic => 400,
            ErrorType::Internal => 500,
            ErrorType::NotFound => 404,
        }
    }

    /// The HTTP status with which a failure of this kind is answered.
    #[verifier::when_used_as_spec(spec_status)]
    pub fn status(self) -> (r: u16)
        ensures
            r == self.spec_status(),
    {
        match self {
            ErrorType::BadRequest => 400,
            ErrorType::Connection => 500,
            ErrorType::Generic => 400,
            ErrorType::Internal => 500,
            ErrorType::NotFound => 404,
        }
    }

    /// The name of the kind.
    pub open spec fn spec_name(self) -> Seq<char> {
        match self {
            ErrorType::BadRequest => "BadRequest"@,
            ErrorType::Connection => "Connection"@,
            ErrorType::Generic => "Generic"@,
            ErrorType::Internal => "Internal"@,
            ErrorType::NotFound => "NotFound"@,
        }
    }

    /// The name of the kind.
    pub fn name(self) -> (r: &'static str)
        ensures
            r@ == self.spec_name(),
    {
        match self {
            ErrorType::BadRequest => "BadRequest",
            ErrorType::Connection => "Connection",
            ErrorType::Generic => "Generic",
            ErrorType::Internal => "Internal",
            ErrorType::NotFound => "NotFound",
        }
    }
}

impl Error {
    /// A failure of the kind `error` with `message`.
    pub fn new(error: ErrorType, message: &str) -> (r: Error)
        ensures
            r.error == error,
            r.message@ == message@,
    {
        Error { error, message: String::from_str(message) }
    }

    /// The failure that is told where the directory has no answer.
    pub fn not_found() -> (r: Error)
        ensures
            r.error == ErrorType::NotFound,
            r.message@ == "value not found"@,
    {
        Error::new(ErrorType::NotFound, "value not found")
    }

    /// The status and the body with which the failure is answered.
    pub fn into_response(self) -> (r: (u16, String))
        ensures
            r.0 == self.error.spec_status(),
            r.1 == self.message,
    {
        (self.error.status(), self.message)
    }

    /// The failure as one line of text.
    pub fn to_text(&self) -> (r: String)
        ensures
            r@ == "error: "@ + self.error.spec_name() + " message: "@ + self.message@,
    {
        let mut r = String::from_str("error: ");
        r.append(self.error.name());
        r.append(" message: ");
        r.append(self.message.as_str());
        r
    }

    /// The failure that a fault of reading or writing stands for. `cause`
    /// is what the fault says of itself.
    pub fn from_io(cause: &str) -> (r: Error)
        ensures
            r.error == ErrorType::BadRequest,
            r.message@ == "IO Error: "@ + cause@,
    {
        Error { error: ErrorType::BadRequest, message: concat2("IO Error: ", cause) }
    }

    /// The failure that a fault of formatting stands for.
    pub fn from_fmt(cause: &str) -> (r: Error)
        ensures
            r.error == ErrorType::Internal,
            r.message@ == cause@,
    {
        Error::new(ErrorType::Internal, cause)
    }

    /// The failure that a fault of the HTTP server stands for.
    pub fn from_server(cause: &str) -> (r: Error)
        ensures
            r.error == ErrorType::Connection,
            r.message@ == cause@,
    {
        Error::new(ErrorType::Connection, cause)
    }

    /// The failure that a header which is not plain text stands for.
    pub fn from_header(cause: &str) -> (r: Error)
        ensures
            r.error == ErrorType::BadRequest,
            r.message@ == "Request headers contained non ASCII characters: "@ + cause@,
    {
        Error {
            error: ErrorType::BadRequest,
            message: concat2("Request headers contained non ASCII characters: ", cause),
        }
    }

    /// The failure that a request which could not be sent stands for.
    pub fn from_request(cause: &str) -> (r: Error)
        ensures
            r.error == ErrorType::Connection,
            r.message@ == "Cannot send out HTTP request: "@ + cause@,
    {
        Error {
            error: ErrorType::Connection,
            message: concat2("Cannot send out HTTP request: ", cause),
        }
    }

    /// The failure that a value which could not be written as bytes stands
    /// for.
    pub fn from_encoding(cause: &str) -> (r: Error)
        ensures
            r.error == ErrorType::Internal,
            r.message@ == "Cannot serialize value: "@ + cause@,
    {
        Error { error: ErrorType::Internal, message: concat2("Cannot serialize value: ", cause) }
    }

    /// The failure that bytes which could not be read as a value stand for.
    pub fn from_decoding(cause: &str) -> (r: Error)
        ensures
            r.error == ErrorType::Internal,
            r.message@ == "Cannot deserialize value: "@ + cause@,
    {
        Error { error: ErrorType::Internal, message: concat2("Cannot deserialize value: ", cause) }
    }
}

} // verus!
