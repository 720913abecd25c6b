use vstd::prelude::*;

verus! {

/// A member of an encoded message.
#[derive(Debug, Clone, Copy, PartialEq, Eq, Structural)]
pub enum Field {
    Jsonrpc,
    Method,
    Params,
    Id,
    Result,
    Error,
    Code,
    Message,
    Data,
}

/// Why a value could not be decoded.
#[derive(Debug, Clone, Copy, PartialEq, Eq, Structural)]
pub enum FormatError {
    /// The protocol version is not the string `"2.0"`.
    UnsupportedVersion,
    /// The id is neither a string, a non-negative integer that fits in 64
    /// bits, nor null.
    InvalidId,
    /// A message or an error object is not a JSON object.
    NotAnObject,
    /// A required member is absent.
    MissingField(Field),
    /// A member holds a value of the wrong type.
    InvalidType(Field),
}

impl FormatError {
    /// A human-readable statement of the cause.
    pub open spec fn spec_description(self) -> Seq<char> {
        match self {
            FormatError::UnsupportedVersion => "unsupported or missing protocol version"@,
            FormatError::InvalidId => "invalid id shape"@,
            FormatError::NotAnObject => "expected a JSON object"@,
            FormatError::MissingField(_) => "missing field"@,
            FormatError::InvalidType(_) => "invalid type of field"@,
        }
    }

    /// A human-readable statement of the cause.
    pub fn description(&self) -> (r: &'static str)
        ensures
            r@ == self.spec_description(),
    {
        match *self {
            FormatError::UnsupportedVersion => "unsupported or missing protocol version",
            FormatError::InvalidId => "invalid id shape",
            FormatError::NotAnObject => "expected a JSON object",
            FormatError::MissingField(_) => "missing field",
            FormatError::InvalidType(_) => "invalid type of field",
        }
    }
}

impl Field {
    /// The member's key in an encoded object.
    pub fn key(&self) -> (r: &'static str)
        ensures
            r@ == self.spec_key(),
    {
        match *self {
            Field::Jsonrpc => "jsonrpc",
            Field::Method => "method",
            Field::Params => "params",
            Field::Id => "id",
            Field::Result => "result",
            Field::Error => "error",
            Field::Code => "code",
            Field::Message => "message",
            Field::Data => "data",
        }
    }

    pub open spec fn spec_key(self) -> Seq<char> {
        match self {
            Field::Jsonrpc => "jsonrpc"@,
            Field::Method => "method"@,
            Field::Params => "params"@,
            Field::Id => "id"@,
            Field::Result => "result"@,
            Field::Error => "error"@,
            Field::Code => "code"@,
            Field::Message => "message"@,
            Field::Data => "data"@,
        }
    }
}

} // verus!
