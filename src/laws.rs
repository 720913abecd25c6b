use vstd::prelude::*;
use crate::error_code::{error_code_of, ErrorCode};
use crate::format_error::{Field, FormatError};
use crate::id::{id_json, id_of_json, Id};
use crate::json::{Json, Number};
use crate::members::{lemma_keys_distinct, lemma_member_absent, lemma_member_at, member};
use crate::message::{
    code_json, code_of_json, error_object_of_json, is_error_object_json, ErrorObject,
    error_of_json, is_error_json, is_request_json, is_result_json, request_of_json,
    result_of_json, version_of, Error, Request, Result,
};
use crate::version::{is_version_json, V2_0};

verus! {

/// An unsigned integer decodes as `Int` and encodes back to the same number.
pub proof fn lemma_int_id_round_trip(n: u64)
    ensures
        id_of_json(Json::Number(Number::PosInt(n))) == Ok::<Id, FormatError>(Id::Int(n)),
        id_json(Id::Int(n)) == Json::Number(Number::PosInt(n)),
{
}

/// A string decodes as `String` and encodes back to the same string.
pub proof fn lemma_text_id_round_trip(s: String)
    ensures
        id_of_json(Json::Str(s)) == Ok::<Id, FormatError>(Id::String(s)),
        id_json(Id::String(s)) == Json::Str(s),
{
}

/// Null decodes as `Null` and `Null` encodes as null.
pub proof fn lemma_null_id_round_trip()
    ensures
        id_of_json(Json::Null) == Ok::<Id, FormatError>(Id::Null),
        id_json(Id::Null) == Json::Null,
{
}

/// Every shape other than a string, a non-negative integer or null is
/// refused as an id.
pub proof fn lemma_other_id_shapes_fail(j: Json)
    requires
        match j {
            Json::Number(Number::NegInt(v)) => v < 0,
            Json::Number(Number::Float(_)) => true,
            Json::Bool(_) => true,
            Json::Array(_) => true,
            Json::Object(_) => true,
            _ => false,
        },
    ensures
        id_of_json(j) == Err::<Id, FormatError>(FormatError::InvalidId),
{
}

/// The five fixed integers map to their symbolic codes, all of them valid.
pub proof fn lemma_fixed_codes()
    ensures
        error_code_of(-32700i64) == ErrorCode::ParseError,
        error_code_of(-32600i64) == ErrorCode::InvalidRequest,
        error_code_of(-32601i64) == ErrorCode::MethodNotFound,
        error_code_of(-32602i64) == ErrorCode::InvalidParams,
        error_code_of(-32603i64) == ErrorCode::InternalError,
        error_code_of(-32700i64).spec_is_valid(),
        error_code_of(-32600i64).spec_is_valid(),
        error_code_of(-32601i64).spec_is_valid(),
        error_code_of(-32602i64).spec_is_valid(),
        error_code_of(-32603i64).spec_is_valid(),
{
}

/// Any other integer maps to `ServerError` of itself, which is valid exactly
/// inside the band `-32099` to `-32000`.
pub proof fn lemma_server_error_band(v: i64)
    requires
        v != -32700 && v != -32600 && v != -32601 && v != -32602 && v != -32603,
    ensures
        error_code_of(v) == ErrorCode::ServerError(v),
        error_code_of(v).spec_is_valid() <==> -32099 <= v <= -32000,
{
}

/// Every integer is written back as itself.
pub proof fn lemma_code_round_trip(v: i64)
    ensures
        error_code_of(v).spec_code() == v,
{
}

/// A message whose `jsonrpc` member is anything but the string `"2.0"` is
/// refused in every shape, and the string `"2.0"` is accepted.
pub proof fn lemma_version_checked(m: Vec<(String, Json)>, v: Json)
    requires
        member(m@, Field::Jsonrpc.spec_key()) == Some(v),
        !is_version_json(v),
    ensures
        request_of_json(Json::Object(m)) == Err::<Request<Json>, FormatError>(
            FormatError::UnsupportedVersion,
        ),
        result_of_json(Json::Object(m)) == Err::<Result<Json>, FormatError>(
            FormatError::UnsupportedVersion,
        ),
        error_of_json(Json::Object(m)) == Err::<Error<Json>, FormatError>(
            FormatError::UnsupportedVersion,
        ),
{
}

/// The version string `"2.0"` is accepted.
pub proof fn lemma_version_accepted(v: Json)
    requires
        is_version_json(v),
    ensures
        version_of(Some(v)) == Ok::<V2_0, FormatError>(V2_0),
{
}

/// Every id decodes back from its own encoding.
pub proof fn lemma_id_round_trip(id: Id)
    ensures
        id_of_json(id_json(id)) == Ok::<Id, FormatError>(id),
{
}

/// An error code decodes back from its own encoding, unless it is a
/// `ServerError` that holds one of the five fixed integers (which decodes as
/// the symbolic code instead).
pub proof fn lemma_error_code_json_round_trip(c: ErrorCode)
    requires
        error_code_of(c.spec_code()) == c,
    ensures
        code_of_json(code_json(c)) == Ok::<ErrorCode, FormatError>(c),
{
}

/// A request decodes back from its encoding.
pub proof fn lemma_request_round_trip(r: Request<Json>, j: Json)
    requires
        is_request_json(j, r),
    ensures
        request_of_json(j) == Ok::<Request<Json>, FormatError>(r),
{
    lemma_keys_distinct();
    lemma_id_round_trip(r.id);
    let m = j->Object_0@;
    lemma_member_at(m, 0, Field::Jsonrpc.spec_key());
    lemma_member_at(m, 1, Field::Method.spec_key());
    match r.params {
        Some(p) => {
            lemma_member_at(m, 2, Field::Params.spec_key());
            lemma_member_at(m, 3, Field::Id.spec_key());
        },
        None => {
            lemma_member_absent(m, Field::Params.spec_key());
            lemma_member_at(m, 2, Field::Id.spec_key());
        },
    }
}

/// A success response decodes back from its encoding.
pub proof fn lemma_result_round_trip(r: Result<Json>, j: Json)
    requires
        is_result_json(j, r),
    ensures
        result_of_json(j) == Ok::<Result<Json>, FormatError>(r),
{
    lemma_keys_distinct();
    lemma_id_round_trip(r.id);
    let m = j->Object_0@;
    lemma_member_at(m, 0, Field::Jsonrpc.spec_key());
    lemma_member_at(m, 1, Field::Result.spec_key());
    lemma_member_at(m, 2, Field::Id.spec_key());
}

/// An error object decodes back from its encoding, unless its code is a
/// `ServerError` that holds one of the five fixed integers.
pub proof fn lemma_error_object_round_trip(e: ErrorObject<Json>, j: Json)
    requires
        is_error_object_json(j, e),
        error_code_of(e.code.spec_code()) == e.code,
    ensures
        error_object_of_json(j) == Ok::<ErrorObject<Json>, FormatError>(e),
{
    lemma_keys_distinct();
    lemma_error_code_json_round_trip(e.code);
    let m = j->Object_0@;
    lemma_member_at(m, 0, Field::Code.spec_key());
    lemma_member_at(m, 1, Field::Message.spec_key());
    lemma_member_at(m, 2, Field::Data.spec_key());
}

/// An error response decodes back from its encoding, unless its code is a
/// `ServerError` that holds one of the five fixed integers.
pub proof fn lemma_error_round_trip(e: Error<Json>, j: Json)
    requires
        is_error_json(j, e),
        error_code_of(e.error.code.spec_code()) == e.error.code,
    ensures
        error_of_json(j) == Ok::<Error<Json>, FormatError>(e),
{
    lemma_keys_distinct();
    lemma_id_round_trip(e.id);
    let m = j->Object_0@;
    lemma_error_object_round_trip(e.error, m[1].1);
    lemma_member_at(m, 0, Field::Jsonrpc.spec_key());
    lemma_member_at(m, 1, Field::Error.spec_key());
    lemma_member_at(m, 2, Field::Id.spec_key());
}

} // verus!
