use vstd::prelude::*;
use crate::format_error::FormatError;
use crate::json::{Json, Number};

verus! {

/// The `id` of a message: a string, an unsigned integer or null.
///
/// It is written without a tag: the shape of the JSON value tells the variant.
#[derive(Debug, PartialEq, Eq)]
pub enum Id {
    String(String),
    Int(u64),
    Null,
}

/// The JSON value that an id is written as.
pub open spec fn id_json(id: Id) -> Json {
    match id {
        Id::String(s) => Json::Str(s),
        Id::Int(n) => Json::Number(Number::PosInt(n)),
        Id::Null => Json::Null,
    }
}

/// The id that a JSON value stands for, by its shape alone.
pub open spec fn id_of_json(j: Json) -> Result<Id, FormatError> {
    match j {
        Json::Str(s) => Ok(Id::String(s)),
        Json::Number(Number::PosInt(n)) => Ok(Id::Int(n)),
        Json::Number(Number::NegInt(v)) => if v >= 0 {
            Ok(Id::Int(v as u64))
        } else {
            Err(FormatError::InvalidId)
        },
        Json::Null => Ok(Id::Null),
        _ => Err(FormatError::InvalidId),
    }
}

impl Id {
    /// Encode the id: a string, a number or null, with no tag.
    pub fn to_json(self) -> (r: Json)
        ensures
            r == id_json(self),
    {
        match self {
            Id::String(s) => Json::Str(s),
            Id::Int(n) => Json::Number(Number::PosInt(n)),
            Id::Null => Json::Null,
        }
    }

    /// Decode an id from the shape of a JSON value: a string gives `String`,
    /// a non-negative integer `Int`, null `Null`; anything else fails.
    pub fn from_json(j: Json) -> (r: Result<Id, FormatError>)
        ensures
            r == id_of_json(j),
    {
        match j {
            Json::Str(s) => Ok(Id::String(s)),
            Json::Number(Number::PosInt(n)) => Ok(Id::Int(n)),
            Json::Number(Number::NegInt(v)) => if v >= 0 {
                Ok(Id::Int(v as u64))
            } else {
                Err(FormatError::InvalidId)
            },
            Json::Null => Ok(Id::Null),
            _ => Err(FormatError::InvalidId),
        }
    }
}

impl From<String> for Id {
    fn from(s: String) -> (r: Id)
        ensures
            r == Id::String(s),
    {
        Id::String(s)
    }
}

impl vstd::std_specs::convert::FromSpecImpl<String> for Id {
    open spec fn obeys_from_spec() -> bool {
        true
    }

    open spec fn from_spec(s: String) -> Id {
        Id::String(s)
    }
}

impl From<u64> for Id {
    fn from(v: u64) -> (r: Id)
        ensures
            r == Id::Int(v),
    {
        Id::Int(v)
    }
}

impl vstd::std_specs::convert::FromSpecImpl<u64> for Id {
    open spec fn obeys_from_spec() -> bool {
        true
    }

    open spec fn from_spec(v: u64) -> Id {
        Id::Int(v)
    }
}

} // verus!
