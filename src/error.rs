use vstd::prelude::*;
use vstd::string::*;

verus! {

/// The five storage operations that a resource may support.
#[derive(Clone, Copy, Debug, PartialEq, Eq, Structural)]
pub enum Operation {
    ReadById,
    ReadPaged,
    Create,
    Update,
    Remove,
}

impl Operation {
    /// Whether the operation addresses one resource through an identifier.
    pub open spec fn spec_takes_id(self) -> bool {
        match self {
            Operation::ReadById | Operation::Update | Operation::Remove => true,
            Operation::ReadPaged | Operation::Create => false,
        }
    }

    /// Whether the operation reads a resource from the request body.
    pub open spec fn spec_takes_body(self) -> bool {
        match self {
            Operation::Create | Operation::Update => true,
            _ => false,
        }
    }

    /// The fixed message of the error that an operation left unimplemented fails with.
    pub open spec fn spec_unsupported_message(self) -> Seq<char> {
        match self {
            Operation::ReadById => "Resource not accessible by id"@,
            Operation::ReadPaged => "Resource not accessible by page"@,
            Operation::Create => "Resource not creatable!"@,
            Operation::Update => "Resource not updateable!"@,
            Operation::Remove => "Resource not deleteable!"@,
        }
    }

    pub fn takes_id(&self) -> (r: bool)
        ensures
            r == self.spec_takes_id(),
    {
        match self {
            Operation::ReadById | Operation::Update | Operation::Remove => true,
            Operation::ReadPaged | Operation::Create => false,
        }
    }

    pub fn takes_body(&self) -> (r: bool)
        ensures
            r == self.spec_takes_body(),
    {
        match self {
            Operation::Create | Operation::Update => true,
            _ => false,
        }
    }

    pub fn unsupported_message(&self) -> (r: String)
        ensures
            r@ == self.spec_unsupported_message(),
    {
        match self {
            Operation::ReadById => String::from_str("Resource not accessible by id"),
            Operation::ReadPaged => String::from_str("Resource not accessible by page"),
            Operation::Create => String::from_str("Resource not creatable!"),
            Operation::Update => String::from_str("Resource not updateable!"),
            Operation::Remove => String::from_str("Resource not deleteable!"),
        }
    }
}

/// Why a request on a resource failed.
#[derive(Clone, Copy, Debug, PartialEq, Eq, Structural)]
pub enum ResourceError {
    /// The resource does not implement this operation.
    Unsupported(Operation),
    /// The identifier in the path is missing or does not parse.
    MalformedId,
    /// The page parameters of the query do not parse.
    MalformedQuery,
    /// The request body does not decode to a resource.
    MalformedBody,
    /// No resource has the requested identifier.
    NotFound,
    /// Every identifier that could be assigned is taken.
    IdsExhausted,
}

pub const STATUS_OK: u16 = 200;
pub const STATUS_BAD_REQUEST: u16 = 400;
pub const STATUS_NOT_FOUND: u16 = 404;
pub const STATUS_INTERNAL_ERROR: u16 = 500;

/// A status in the client-error class.
pub open spec fn is_client_error(status: u16) -> bool {
    400 <= status < 500
}

/// A status in the success class.
pub open spec fn is_success(status: u16) -> bool {
    200 <= status < 300
}

impl ResourceError {
    /// Whether the error was caused by what the client sent.
    pub open spec fn spec_caused_by_client(self) -> bool {
        match self {
            ResourceError::MalformedId | ResourceError::MalformedQuery
            | ResourceError::MalformedBody | ResourceError::NotFound => true,
            _ => false,
        }
    }

    pub open spec fn spec_status(self) -> u16 {
        match self {
            ResourceError::MalformedId | ResourceError::MalformedQuery
            | ResourceError::MalformedBody => STATUS_BAD_REQUEST,
            ResourceError::NotFound => STATUS_NOT_FOUND,
            ResourceError::Unsupported(_) | ResourceError::IdsExhausted => STATUS_INTERNAL_ERROR,
        }
    }

    pub open spec fn spec_message(self) -> Seq<char> {
        match self {
            ResourceError::Unsupported(op) => op.spec_unsupported_message(),
            ResourceError::MalformedId => "Malformed identifier in path"@,
            ResourceError::MalformedQuery => "Malformed page parameters"@,
            ResourceError::MalformedBody => "Malformed resource in body"@,
            ResourceError::NotFound => "Resource not found"@,
            ResourceError::IdsExhausted => "No identifier left to assign"@,
        }
    }

    /// The HTTP status that the error is answered with.
    pub fn status(&self) -> (r: u16)
        ensures
            r == self.spec_status(),
    {
        match self {
            ResourceError::MalformedId | ResourceError::MalformedQuery
            | ResourceError::MalformedBody => STATUS_BAD_REQUEST,
            ResourceError::NotFound => STATUS_NOT_FOUND,
            ResourceError::Unsupported(_) | ResourceError::IdsExhausted => STATUS_INTERNAL_ERROR,
        }
    }

    /// The text of the error response.
    pub fn message(&self) -> (r: String)
        ensures
            r@ == self.spec_message(),
    {
        match self {
            ResourceError::Unsupported(op) => op.unsupported_message(),
            ResourceError::MalformedId => String::from_str("Malformed identifier in path"),
            ResourceError::MalformedQuery => String::from_str("Malformed page parameters"),
            ResourceError::MalformedBody => String::from_str("Malformed resource in body"),
            ResourceError::NotFound => String::from_str("Resource not found"),
            ResourceError::IdsExhausted => String::from_str("No identifier left to assign"),
        }
    }
}

/// The outcome of an operation left unimplemented: it always fails, naming the operation.
pub fn unsupported<T>(op: Operation) -> (r: Result<T, ResourceError>)
    ensures
        r == Err::<T, ResourceError>(ResourceError::Unsupported(op)),
{
    Err(ResourceError::Unsupported(op))
}

/// The status of the response to an operation's outcome.
pub open spec fn spec_reply_status<T>(outcome: Result<T, ResourceError>) -> u16 {
    match outcome {
        Ok(_) => STATUS_OK,
        Err(e) => e.spec_status(),
    }
}

/// The response to an operation's outcome, before the resource is encoded.
#[derive(Debug)]
pub enum Reply<T> {
    /// The operation succeeded; the response carries the resource.
    Success(T),
    /// The operation failed; the response carries a status and a message.
    Failure { status: u16, message: String },
}

impl<T> Reply<T> {
    pub open spec fn spec_status(self) -> u16 {
        match self {
            Reply::Success(_) => STATUS_OK,
            Reply::Failure { status, .. } => status,
        }
    }

    /// The HTTP status of the response.
    pub fn status(&self) -> (r: u16)
        ensures
            r == self.spec_status(),
    {
        match self {
            Reply::Success(_) => STATUS_OK,
            Reply::Failure { status, .. } => *status,
        }
    }
}

/// The response to an operation's outcome: the resource on success, else the error's
/// status and message.
pub fn reply<T>(outcome: Result<T, ResourceError>) -> (r: Reply<T>)
    ensures
        match outcome {
            Ok(v) => r == Reply::Success(v),
            Err(e) => (r matches Reply::Failure { status, message } && status == e.spec_status()
                && message@ == e.spec_message()),
        },
        r.spec_status() == spec_reply_status(outcome),
{
    match outcome {
        Ok(v) => Reply::Success(v),
        Err(e) => Reply::Failure { status: e.status(), message: e.message() },
    }
}

/// The status of the response to an operation's outcome: success carries the resource.
pub fn reply_status<T>(outcome: &Result<T, ResourceError>) -> (r: u16)
    ensures
        r == spec_reply_status(*outcome),
{
    match outcome {
        Ok(_) => STATUS_OK,
        Err(e) => e.status(),
    }
}

} // verus!
