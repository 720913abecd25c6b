use vstd::prelude::*;

verus! {

/// Lowest code of the band reserved for implementation-defined server errors.
pub const SERVER_ERROR_MIN: i64 = -32099;

/// Highest code of the band reserved for implementation-defined server errors.
pub const SERVER_ERROR_MAX: i64 = -32000;

/// A JSON-RPC error code.
#[derive(Debug, Clone, Copy, PartialEq, Eq, Structural)]
pub enum ErrorCode {
    /// `-32700`: invalid JSON was received by the server.
    ParseError,
    /// `-32600`: the JSON sent is not a valid Request object.
    InvalidRequest,
    /// `-32601`: the method does not exist or is not available.
    MethodNotFound,
    /// `-32602`: invalid method parameters.
    InvalidParams,
    /// `-32603`: internal JSON-RPC error.
    InternalError,
    /// Any other code; `-32099` to `-32000` is the band reserved for
    /// implementation-defined server errors.
    ServerError(i64),
}

/// The code that an integer stands for: the five fixed integers map to their
/// symbolic variant, every other integer to `ServerError`.
pub open spec fn error_code_of(v: i64) -> ErrorCode {
    if v == -32700 {
        ErrorCode::ParseError
    } else if v == -32600 {
        ErrorCode::InvalidRequest
    } else if v == -32601 {
        ErrorCode::MethodNotFound
    } else if v == -32602 {
        ErrorCode::InvalidParams
    } else if v == -32603 {
        ErrorCode::InternalError
    } else {
        ErrorCode::ServerError(v)
    }
}

impl ErrorCode {
    /// The integer that this code is written as.
    pub open spec fn spec_code(self) -> i64 {
        match self {
            ErrorCode::ParseError => -32700i64,
            ErrorCode::InvalidRequest => -32600i64,
            ErrorCode::MethodNotFound => -32601i64,
            ErrorCode::InvalidParams => -32602i64,
            ErrorCode::InternalError => -32603i64,
            ErrorCode::ServerError(v) => v,
        }
    }

    /// Whether the code conforms to the protocol: the fixed codes always do, a
    /// server error only inside its band.
    pub open spec fn spec_is_valid(self) -> bool {
        match self {
            ErrorCode::ServerError(v) => SERVER_ERROR_MIN <= v <= SERVER_ERROR_MAX,
            _ => true,
        }
    }

    /// Return whether the code is correct: `false` only for a `ServerError`
    /// outside of `-32099` to `-32000`.
    pub fn is_valid(&self) -> (r: bool)
        ensures
            r == self.spec_is_valid(),
    {
        match *self {
            ErrorCode::ServerError(value) => SERVER_ERROR_MIN <= value && value <= SERVER_ERROR_MAX,
            _ => true,
        }
    }

    /// The integer that this code is written as.
    pub fn code(&self) -> (r: i64)
        ensures
            r == self.spec_code(),
    {
        match *self {
            ErrorCode::ParseError => -32700,
            ErrorCode::InvalidRequest => -32600,
            ErrorCode::MethodNotFound => -32601,
            ErrorCode::InvalidParams => -32602,
            ErrorCode::InternalError => -32603,
            ErrorCode::ServerError(v) => v,
        }
    }
}

impl From<i64> for ErrorCode {
    fn from(v: i64) -> (r: ErrorCode)
        ensures
            r == error_code_of(v),
    {
        match v {
            -32700 => ErrorCode::ParseError,
            -32600 => ErrorCode::InvalidRequest,
            -32601 => ErrorCode::MethodNotFound,
            -32602 => ErrorCode::InvalidParams,
            -32603 => ErrorCode::InternalError,
            _ => ErrorCode::ServerError(v),
        }
    }
}

impl vstd::std_specs::convert::FromSpecImpl<i64> for ErrorCode {
    open spec fn obeys_from_spec() -> bool {
        true
    }

    open spec fn from_spec(v: i64) -> ErrorCode {
        error_code_of(v)
    }
}

} // verus!
