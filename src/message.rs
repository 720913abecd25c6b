use vstd::prelude::*;
use crate::error_code::{error_code_of, ErrorCode};
use crate::format_error::{Field, FormatError};
use crate::id::{id_json, id_of_json, Id};
use crate::json::{Json, Number};
use crate::members::{member, take_members};
use crate::version::{is_version_json, V2_0};

verus! {

/// The jsonrpc Request object.
#[derive(Debug, PartialEq, Eq)]
pub struct Request<T> {
    pub jsonrpc: V2_0,
    pub method: String,
    pub params: Option<T>,
    pub id: Id,
}

/// The jsonrpc Result response, indicating a successful result.
#[derive(Debug, PartialEq, Eq)]
pub struct Result<T> {
    pub jsonrpc: V2_0,
    pub result: T,
    pub id: Id,
}

/// The jsonrpc Error response, indicating an error.
#[derive(Debug, PartialEq, Eq)]
pub struct Error<T> {
    pub jsonrpc: V2_0,
    pub error: ErrorObject<T>,
    pub id: Id,
}

/// The jsonrpc Error object, with details of the error.
#[derive(Debug, PartialEq, Eq)]
pub struct ErrorObject<T> {
    pub code: ErrorCode,
    pub message: String,
    pub data: T,
}

impl<T> Request<T> {
    /// A request without params.
    pub fn new(id: Id, method: String) -> (r: Self)
        ensures
            r == (Request::<T> { jsonrpc: V2_0, method, params: None, id }),
    {
        Request { jsonrpc: V2_0, method, params: None, id }
    }

    /// A request that carries params.
    pub fn with_params(id: Id, method: String, params: T) -> (r: Self)
        ensures
            r == (Request { jsonrpc: V2_0, method, params: Some(params), id }),
    {
        Request { jsonrpc: V2_0, method, params: Some(params), id }
    }
}

// ---------------------------------------------------------------------------
// Encoding
// ---------------------------------------------------------------------------

/// Whether member `i` of `m` is `f` with value `v`.
pub open spec fn has_member_at(m: Seq<(String, Json)>, i: int, f: Field, v: Json) -> bool {
    0 <= i < m.len() && m[i].0@ == f.spec_key() && m[i].1 == v
}

/// Whether member `i` of `m` is the version marker.
pub open spec fn has_version_at(m: Seq<(String, Json)>, i: int) -> bool {
    0 <= i < m.len() && m[i].0@ == Field::Jsonrpc.spec_key() && is_version_json(m[i].1)
}

/// The JSON number that an error code is written as.
pub open spec fn code_json(c: ErrorCode) -> Json {
    let v = c.spec_code();
    if v < 0 {
        Json::Number(Number::NegInt(v))
    } else {
        Json::Number(Number::PosInt(v as u64))
    }
}

/// Whether `j` is the encoding of `r`: members `jsonrpc`, `method`, `params`
/// (left out when absent) and `id`, in that order.
pub open spec fn is_request_json(j: Json, r: Request<Json>) -> bool {
    match j {
        Json::Object(m) => match r.params {
            Some(p) => m@.len() == 4 && has_version_at(m@, 0) && has_member_at(
                m@,
                1,
                Field::Method,
                Json::Str(r.method),
            ) && has_member_at(m@, 2, Field::Params, p) && has_member_at(
                m@,
                3,
                Field::Id,
                id_json(r.id),
            ),
            None => m@.len() == 3 && has_version_at(m@, 0) && has_member_at(
                m@,
                1,
                Field::Method,
                Json::Str(r.method),
            ) && has_member_at(m@, 2, Field::Id, id_json(r.id)),
        },
        _ => false,
    }
}

/// Whether `j` is the encoding of `r`: members `jsonrpc`, `result` and `id`,
/// in that order.
pub open spec fn is_result_json(j: Json, r: Result<Json>) -> bool {
    match j {
        Json::Object(m) => m@.len() == 3 && has_version_at(m@, 0) && has_member_at(
            m@,
            1,
            Field::Result,
            r.result,
        ) && has_member_at(m@, 2, Field::Id, id_json(r.id)),
        _ => false,
    }
}

/// Whether `j` is the encoding of `e`: members `code`, `message` and `data`,
/// in that order.
pub open spec fn is_error_object_json(j: Json, e: ErrorObject<Json>) -> bool {
    match j {
        Json::Object(m) => m@.len() == 3 && has_member_at(m@, 0, Field::Code, code_json(e.code))
            && has_member_at(m@, 1, Field::Message, Json::Str(e.message)) && has_member_at(
            m@,
            2,
            Field::Data,
            e.data,
        ),
        _ => false,
    }
}

/// Whether `j` is the encoding of `e`: members `jsonrpc`, `error` and `id`,
/// in that order.
pub open spec fn is_error_json(j: Json, e: Error<Json>) -> bool {
    match j {
        Json::Object(m) => m@.len() == 3 && has_version_at(m@, 0) && m@[1].0@
            == Field::Error.spec_key() && is_error_object_json(m@[1].1, e.error) && has_member_at(
            m@,
            2,
            Field::Id,
            id_json(e.id),
        ),
        _ => false,
    }
}

fn key(f: Field) -> (r: String)
    ensures
        r@ == f.spec_key(),
{
    f.key().to_owned()
}

fn code_to_json(c: ErrorCode) -> (r: Json)
    ensures
        r == code_json(c),
{
    let v = c.code();
    if v < 0 {
        Json::Number(Number::NegInt(v))
    } else {
        Json::Number(Number::PosInt(v as u64))
    }
}

impl Request<Json> {
    /// Encode the request as a JSON object.
    pub fn to_json(self) -> (r: Json)
        ensures
            is_request_json(r, self),
    {
        let mut m: Vec<(String, Json)> = Vec::new();
        m.push((key(Field::Jsonrpc), self.jsonrpc.to_json()));
        m.push((key(Field::Method), Json::Str(self.method)));
        match self.params {
            Some(p) => m.push((key(Field::Params), p)),
            None => {},
        }
        m.push((key(Field::Id), self.id.to_json()));
        Json::Object(m)
    }
}

impl Result<Json> {
    /// Encode the success response as a JSON object.
    pub fn to_json(self) -> (r: Json)
        ensures
            is_result_json(r, self),
    {
        let mut m: Vec<(String, Json)> = Vec::new();
        m.push((key(Field::Jsonrpc), self.jsonrpc.to_json()));
        m.push((key(Field::Result), self.result));
        m.push((key(Field::Id), self.id.to_json()));
        Json::Object(m)
    }
}

impl ErrorObject<Json> {
    /// Encode the error object as a JSON object.
    pub fn to_json(self) -> (r: Json)
        ensures
            is_error_object_json(r, self),
    {
        let mut m: Vec<(String, Json)> = Vec::new();
        m.push((key(Field::Code), code_to_json(self.code)));
        m.push((key(Field::Message), Json::Str(self.message)));
        m.push((key(Field::Data), self.data));
        Json::Object(m)
    }
}

impl Error<Json> {
    /// Encode the error response as a JSON object.
    pub fn to_json(self) -> (r: Json)
        ensures
            is_error_json(r, self),
    {
        let mut m: Vec<(String, Json)> = Vec::new();
        m.push((key(Field::Jsonrpc), self.jsonrpc.to_json()));
        m.push((key(Field::Error), self.error.to_json()));
        m.push((key(Field::Id), self.id.to_json()));
        Json::Object(m)
    }
}

// ---------------------------------------------------------------------------
// Decoding
// ---------------------------------------------------------------------------

/// The version marker held by the `jsonrpc` member, if present.
pub open spec fn version_of(slot: Option<Json>) -> core::result::Result<V2_0, FormatError> {
    match slot {
        None => Err(FormatError::MissingField(Field::Jsonrpc)),
        Some(v) => if is_version_json(v) {
            Ok(V2_0)
        } else {
            Err(FormatError::UnsupportedVersion)
        },
    }
}

/// The id held by the `id` member, if present.
pub open spec fn id_of(slot: Option<Json>) -> core::result::Result<Id, FormatError> {
    match slot {
        None => Err(FormatError::MissingField(Field::Id)),
        Some(v) => id_of_json(v),
    }
}

/// The string held by the member `f`, if present.
pub open spec fn text_of(slot: Option<Json>, f: Field) -> core::result::Result<String, FormatError> {
    match slot {
        None => Err(FormatError::MissingField(f)),
        Some(Json::Str(s)) => Ok(s),
        Some(_) => Err(FormatError::InvalidType(f)),
    }
}

/// The value of the required member `f`.
pub open spec fn required(slot: Option<Json>, f: Field) -> core::result::Result<Json, FormatError> {
    match slot {
        None => Err(FormatError::MissingField(f)),
        Some(v) => Ok(v),
    }
}

/// The error code held by a JSON number that fits in an `i64`.
pub open spec fn code_of_json(j: Json) -> core::result::Result<ErrorCode, FormatError> {
    match j {
        Json::Number(Number::PosInt(n)) => if n <= i64::MAX {
            Ok(error_code_of(n as i64))
        } else {
            Err(FormatError::InvalidType(Field::Code))
        },
        Json::Number(Number::NegInt(v)) => Ok(error_code_of(v)),
        _ => Err(FormatError::InvalidType(Field::Code)),
    }
}

/// The error code held by the `code` member, if present.
pub open spec fn code_of(slot: Option<Json>) -> core::result::Result<ErrorCode, FormatError> {
    match slot {
        None => Err(FormatError::MissingField(Field::Code)),
        Some(v) => code_of_json(v),
    }
}

/// The request that a JSON value decodes to: members are checked in the order
/// `jsonrpc`, `method`, `id`, and the first failure is reported; `params` is
/// whatever value the member holds (null included), or none when it is absent.
pub open spec fn request_of_json(j: Json) -> core::result::Result<Request<Json>, FormatError> {
    match j {
        Json::Object(m) => {
            let m = m@;
            match version_of(member(m, Field::Jsonrpc.spec_key())) {
                Err(e) => Err(e),
                Ok(v) => match text_of(member(m, Field::Method.spec_key()), Field::Method) {
                    Err(e) => Err(e),
                    Ok(method) => match id_of(member(m, Field::Id.spec_key())) {
                        Err(e) => Err(e),
                        Ok(id) => Ok(
                            Request {
                                jsonrpc: v,
                                method,
                                params: member(m, Field::Params.spec_key()),
                                id,
                            },
                        ),
                    },
                },
            }
        },
        _ => Err(FormatError::NotAnObject),
    }
}

/// The success response that a JSON value decodes to: members are checked in
/// the order `jsonrpc`, `result`, `id`.
pub open spec fn result_of_json(j: Json) -> core::result::Result<Result<Json>, FormatError> {
    match j {
        Json::Object(m) => {
            let m = m@;
            match version_of(member(m, Field::Jsonrpc.spec_key())) {
                Err(e) => Err(e),
                Ok(v) => match required(member(m, Field::Result.spec_key()), Field::Result) {
                    Err(e) => Err(e),
                    Ok(result) => match id_of(member(m, Field::Id.spec_key())) {
                        Err(e) => Err(e),
                        Ok(id) => Ok(Result { jsonrpc: v, result, id }),
                    },
                },
            }
        },
        _ => Err(FormatError::NotAnObject),
    }
}

/// The error object that a JSON value decodes to: members are checked in the
/// order `code`, `message`, `data`.
pub open spec fn error_object_of_json(j: Json) -> core::result::Result<
    ErrorObject<Json>,
    FormatError,
> {
    match j {
        Json::Object(m) => {
            let m = m@;
            match code_of(member(m, Field::Code.spec_key())) {
                Err(e) => Err(e),
                Ok(code) => match text_of(member(m, Field::Message.spec_key()), Field::Message) {
                    Err(e) => Err(e),
                    Ok(message) => match required(member(m, Field::Data.spec_key()), Field::Data) {
                        Err(e) => Err(e),
                        Ok(data) => Ok(ErrorObject { code, message, data }),
                    },
                },
            }
        },
        _ => Err(FormatError::NotAnObject),
    }
}

/// The error response that a JSON value decodes to: members are checked in
/// the order `jsonrpc`, `error`, `id`.
pub open spec fn error_of_json(j: Json) -> core::result::Result<Error<Json>, FormatError> {
    match j {
        Json::Object(m) => {
            let m = m@;
            match version_of(member(m, Field::Jsonrpc.spec_key())) {
                Err(e) => Err(e),
                Ok(v) => match required(member(m, Field::Error.spec_key()), Field::Error) {
                    Err(e) => Err(e),
                    Ok(ej) => match error_object_of_json(ej) {
                        Err(e) => Err(e),
                        Ok(error) => match id_of(member(m, Field::Id.spec_key())) {
                            Err(e) => Err(e),
                            Ok(id) => Ok(Error { jsonrpc: v, error, id }),
                        },
                    },
                },
            }
        },
        _ => Err(FormatError::NotAnObject),
    }
}

fn decode_version(slot: Option<Json>) -> (r: core::result::Result<V2_0, FormatError>)
    ensures
        r == version_of(slot),
{
    match slot {
        None => Err(FormatError::MissingField(Field::Jsonrpc)),
        Some(v) => V2_0::from_json(v),
    }
}

fn decode_id(slot: Option<Json>) -> (r: core::result::Result<Id, FormatError>)
    ensures
        r == id_of(slot),
{
    match slot {
        None => Err(FormatError::MissingField(Field::Id)),
        Some(v) => Id::from_json(v),
    }
}

fn decode_text(slot: Option<Json>, f: Field) -> (r: core::result::Result<String, FormatError>)
    ensures
        r == text_of(slot, f),
{
    match slot {
        None => Err(FormatError::MissingField(f)),
        Some(Json::Str(s)) => Ok(s),
        Some(_) => Err(FormatError::InvalidType(f)),
    }
}

fn decode_required(slot: Option<Json>, f: Field) -> (r: core::result::Result<Json, FormatError>)
    ensures
        r == required(slot, f),
{
    match slot {
        None => Err(FormatError::MissingField(f)),
        Some(v) => Ok(v),
    }
}

fn decode_code(slot: Option<Json>) -> (r: core::result::Result<ErrorCode, FormatError>)
    ensures
        r == code_of(slot),
{
    match slot {
        Some(Json::Number(Number::PosInt(n))) => if n <= i64::MAX as u64 {
            Ok(ErrorCode::from(n as i64))
        } else {
            Err(FormatError::InvalidType(Field::Code))
        },
        Some(Json::Number(Number::NegInt(v))) => Ok(ErrorCode::from(v)),
        Some(_) => Err(FormatError::InvalidType(Field::Code)),
        None => Err(FormatError::MissingField(Field::Code)),
    }
}

impl Request<Json> {
    /// Decode a request from a JSON value.
    pub fn from_json(j: Json) -> (r: core::result::Result<Request<Json>, FormatError>)
        ensures
            r == request_of_json(j),
    {
        match j {
            Json::Object(m) => {
                let s = take_members(m);
                proof {
                    s.lemma_slots();
                }
                let jsonrpc = match decode_version(s.jsonrpc) {
                    Ok(x) => x,
                    Err(e) => return Err(e),
                };
                let method = match decode_text(s.method, Field::Method) {
                    Ok(x) => x,
                    Err(e) => return Err(e),
                };
                let id = match decode_id(s.id) {
                    Ok(x) => x,
                    Err(e) => return Err(e),
                };
                Ok(Request { jsonrpc, method, params: s.params, id })
            },
            _ => Err(FormatError::NotAnObject),
        }
    }
}

impl Result<Json> {
    /// Decode a success response from a JSON value.
    pub fn from_json(j: Json) -> (r: core::result::Result<Result<Json>, FormatError>)
        ensures
            r == result_of_json(j),
    {
        match j {
            Json::Object(m) => {
                let s = take_members(m);
                proof {
                    s.lemma_slots();
                }
                let jsonrpc = match decode_version(s.jsonrpc) {
                    Ok(x) => x,
                    Err(e) => return Err(e),
                };
                let result = match decode_required(s.result, Field::Result) {
                    Ok(x) => x,
                    Err(e) => return Err(e),
                };
                let id = match decode_id(s.id) {
                    Ok(x) => x,
                    Err(e) => return Err(e),
                };
                Ok(Result { jsonrpc, result, id })
            },
            _ => Err(FormatError::NotAnObject),
        }
    }
}

impl ErrorObject<Json> {
    /// Decode an error object from a JSON value.
    pub fn from_json(j: Json) -> (r: core::result::Result<ErrorObject<Json>, FormatError>)
        ensures
            r == error_object_of_json(j),
    {
        match j {
            Json::Object(m) => {
                let s = take_members(m);
                proof {
                    s.lemma_slots();
                }
                let code = match decode_code(s.code) {
                    Ok(x) => x,
                    Err(e) => return Err(e),
                };
                let message = match decode_text(s.message, Field::Message) {
                    Ok(x) => x,
                    Err(e) => return Err(e),
                };
                let data = match decode_required(s.data, Field::Data) {
                    Ok(x) => x,
                    Err(e) => return Err(e),
                };
                Ok(ErrorObject { code, message, data })
            },
            _ => Err(FormatError::NotAnObject),
        }
    }
}

impl Error<Json> {
    /// Decode an error response from a JSON value.
    pub fn from_json(j: Json) -> (r: core::result::Result<Error<Json>, FormatError>)
        ensures
            r == error_of_json(j),
    {
        match j {
            Json::Object(m) => {
                let s = take_members(m);
                proof {
                    s.lemma_slots();
                }
                let jsonrpc = match decode_version(s.jsonrpc) {
                    Ok(x) => x,
                    Err(e) => return Err(e),
                };
                let ej = match decode_required(s.error, Field::Error) {
                    Ok(x) => x,
                    Err(e) => return Err(e),
                };
                let error = match ErrorObject::from_json(ej) {
                    Ok(x) => x,
                    Err(e) => return Err(e),
                };
                let id = match decode_id(s.id) {
                    Ok(x) => x,
                    Err(e) => return Err(e),
                };
                Ok(Error { jsonrpc, error, id })
            },
            _ => Err(FormatError::NotAnObject),
        }
    }
}

} // verus!
