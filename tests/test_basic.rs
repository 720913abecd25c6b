use jrpc::{Error, ErrorCode, ErrorObject, Field, FormatError, Id, Json, Number, Request, V2_0};
use serde::ser::{SerializeMap, SerializeSeq};
use serde::{Serialize, Serializer};

fn from_value(v: serde_json::Value) -> Json {
    match v {
        serde_json::Value::Null => Json::Null,
        serde_json::Value::Bool(b) => Json::Bool(b),
        serde_json::Value::Number(n) => {
            if let Some(u) = n.as_u64() {
                Json::Number(Number::PosInt(u))
            } else if let Some(i) = n.as_i64() {
                Json::Number(Number::NegInt(i))
            } else {
                Json::Number(Number::Float(n.as_f64().unwrap().to_bits()))
            }
        }
        serde_json::Value::String(s) => Json::Str(s),
        serde_json::Value::Array(a) => Json::Array(a.into_iter().map(from_value).collect()),
        serde_json::Value::Object(o) => {
            Json::Object(o.into_iter().map(|(k, v)| (k, from_value(v))).collect())
        }
    }
}

fn parse(text: &str) -> Json {
    from_value(serde_json::from_str(text).unwrap())
}

struct Text<'a>(&'a Json);

impl Serialize for Text<'_> {
    fn serialize<S: Serializer>(&self, s: S) -> Result<S::Ok, S::Error> {
        match self.0 {
            Json::Null => s.serialize_unit(),
            Json::Bool(b) => s.serialize_bool(*b),
            Json::Number(Number::PosInt(n)) => s.serialize_u64(*n),
            Json::Number(Number::NegInt(n)) => s.serialize_i64(*n),
            Json::Number(Number::Float(bits)) => s.serialize_f64(f64::from_bits(*bits)),
            Json::Str(x) => s.serialize_str(x),
            Json::Array(a) => {
                let mut seq = s.serialize_seq(Some(a.len()))?;
                for x in a {
                    seq.serialize_element(&Text(x))?;
                }
                seq.end()
            }
            Json::Object(m) => {
                let mut map = s.serialize_map(Some(m.len()))?;
                for (k, v) in m {
                    map.serialize_entry(k, &Text(v))?;
                }
                map.end()
            }
        }
    }
}

fn render(j: &Json) -> String {
    serde_json::to_string(&Text(j)).unwrap()
}

fn num(n: u64) -> Json {
    Json::Number(Number::PosInt(n))
}

#[test]
fn test_id() {
    let id = Id::from_json(parse("1")).unwrap();
    assert_eq!(id, Id::Int(1));

    let id = Id::from_json(parse("\"1\"")).unwrap();
    assert_eq!(id, Id::String("1".into()));

    let id = Id::from_json(parse("null")).unwrap();
    assert_eq!(id, Id::Null);
}

#[test]
fn id_from_conversions() {
    assert_eq!(Id::from(4u64), Id::Int(4));
    assert_eq!(Id::from(String::from("foo")), Id::String("foo".into()));
}

#[test]
fn id_unsigned_round_trip() {
    for (text, n) in [("0", 0u64), ("4", 4), ("18446744073709551615", u64::MAX)] {
        let id = Id::from_json(parse(text)).unwrap();
        assert_eq!(id, Id::Int(n));
        assert_eq!(render(&id.to_json()), text);
    }
}

#[test]
fn id_text_round_trip() {
    for text in ["\"foo\"", "\"\"", "\"a\\\"b\"", "\"4\""] {
        let id = Id::from_json(parse(text)).unwrap();
        assert!(matches!(id, Id::String(_)));
        assert_eq!(render(&id.to_json()), text);
    }
    let id = Id::from_json(parse("\"foo\"")).unwrap();
    assert_eq!(id, Id::String("foo".into()));
}

#[test]
fn id_null_round_trip() {
    assert_eq!(Id::from_json(parse("null")), Ok(Id::Null));
    assert_eq!(render(&Id::Null.to_json()), "null");
}

#[test]
fn id_other_shapes_fail() {
    for text in ["-1", "1.5", "true", "false", "[1]", "{}", "{\"a\":1}", "18446744073709551616"] {
        assert_eq!(Id::from_json(parse(text)), Err(FormatError::InvalidId), "{}", text);
    }
}

#[test]
fn error_code_fixed_values() {
    let cases = [
        (-32700i64, ErrorCode::ParseError),
        (-32600, ErrorCode::InvalidRequest),
        (-32601, ErrorCode::MethodNotFound),
        (-32602, ErrorCode::InvalidParams),
        (-32603, ErrorCode::InternalError),
    ];
    for (v, c) in cases {
        let code = ErrorCode::from(v);
        assert_eq!(code, c);
        assert!(code.is_valid());
        assert_eq!(code.code(), v);
    }
}

#[test]
fn error_code_server_band() {
    for v in [-32099i64, -32000, -32050] {
        let code = ErrorCode::from(v);
        assert_eq!(code, ErrorCode::ServerError(v));
        assert!(code.is_valid());
    }
    for v in [-1i64, -40000, -32100, -31999, 0, i64::MIN, i64::MAX] {
        let code = ErrorCode::from(v);
        assert_eq!(code, ErrorCode::ServerError(v));
        assert!(!code.is_valid());
        assert_eq!(code.code(), v);
    }
}

#[test]
fn request_with_params_text() {
    let params = Json::Array(vec![num(1), num(2), num(3)]);
    let request = Request::with_params(Id::from(4u64), "CreateFoo".into(), params);
    assert_eq!(
        render(&request.to_json()),
        "{\"jsonrpc\":\"2.0\",\"method\":\"CreateFoo\",\"params\":[1,2,3],\"id\":4}"
    );
}

#[test]
fn request_without_params_omits_member() {
    let request: Request<Json> = Request::new(Id::String("a".into()), "ping".into());
    assert_eq!(request.params, None);
    assert_eq!(render(&request.to_json()), "{\"jsonrpc\":\"2.0\",\"method\":\"ping\",\"id\":\"a\"}");
}

#[test]
fn version_marker_text() {
    assert_eq!(render(&V2_0.to_json()), "\"2.0\"");
    assert_eq!(V2_0::from_json(parse("\"2.0\"")), Ok(V2_0));
    for text in ["\"2.1\"", "\"2\"", "\"2.0 \"", "2.0", "null"] {
        assert_eq!(V2_0::from_json(parse(text)), Err(FormatError::UnsupportedVersion));
    }
}

#[test]
fn wrong_version_fails_in_every_shape() {
    let request = parse("{\"jsonrpc\":\"2.1\",\"method\":\"m\",\"id\":1}");
    assert_eq!(Request::from_json(request), Err(FormatError::UnsupportedVersion));
    let result = parse("{\"jsonrpc\":\"2.1\",\"result\":5,\"id\":1}");
    assert_eq!(jrpc::Result::from_json(result), Err(FormatError::UnsupportedVersion));
    let error = parse(
        "{\"jsonrpc\":\"2.1\",\"error\":{\"code\":-32600,\"message\":\"x\",\"data\":null},\"id\":1}",
    );
    assert_eq!(Error::from_json(error), Err(FormatError::UnsupportedVersion));
}

#[test]
fn right_version_succeeds_in_every_shape() {
    let request = parse("{\"jsonrpc\":\"2.0\",\"method\":\"m\",\"id\":1}");
    assert!(Request::from_json(request).is_ok());
    let result = parse("{\"jsonrpc\":\"2.0\",\"result\":5,\"id\":1}");
    assert!(jrpc::Result::from_json(result).is_ok());
    let error = parse(
        "{\"jsonrpc\":\"2.0\",\"error\":{\"code\":-32600,\"message\":\"x\",\"data\":null},\"id\":1}",
    );
    assert!(Error::from_json(error).is_ok());
}

#[test]
fn request_decodes_members() {
    let request = parse("{\"id\":\"x\",\"params\":{\"a\":true},\"method\":\"Do\",\"jsonrpc\":\"2.0\"}");
    let request = Request::from_json(request).unwrap();
    assert_eq!(request.method, "Do");
    assert_eq!(request.id, Id::String("x".into()));
    assert_eq!(
        request.params,
        Some(Json::Object(vec![("a".into(), Json::Bool(true))]))
    );
}

#[test]
fn request_round_trip() {
    let params = Json::Array(vec![num(1), Json::Str("two".into())]);
    let encoded = Request::with_params(Id::from(7u64), "Sum".into(), params).to_json();
    let expected = Request::with_params(
        Id::from(7u64),
        "Sum".into(),
        Json::Array(vec![num(1), Json::Str("two".into())]),
    );
    assert_eq!(Request::from_json(encoded), Ok(expected));

    let encoded = Request::<Json>::new(Id::Null, "Ping".into()).to_json();
    assert_eq!(Request::from_json(encoded), Ok(Request::new(Id::Null, "Ping".into())));
}

#[test]
fn request_null_params_round_trip() {
    let encoded = Request::with_params(Id::from(1u64), "m".into(), Json::Null).to_json();
    assert_eq!(render(&encoded), "{\"jsonrpc\":\"2.0\",\"method\":\"m\",\"params\":null,\"id\":1}");
    assert_eq!(
        Request::from_json(encoded),
        Ok(Request::with_params(Id::from(1u64), "m".into(), Json::Null))
    );
}

#[test]
fn result_round_trip() {
    let message = jrpc::Result { jsonrpc: V2_0, result: Json::Str("done".into()), id: Id::Int(3) };
    let encoded = message.to_json();
    assert_eq!(render(&encoded), "{\"jsonrpc\":\"2.0\",\"result\":\"done\",\"id\":3}");
    let expected = jrpc::Result { jsonrpc: V2_0, result: Json::Str("done".into()), id: Id::Int(3) };
    assert_eq!(jrpc::Result::from_json(encoded), Ok(expected));
}

#[test]
fn error_round_trip() {
    let make = || Error {
        jsonrpc: V2_0,
        error: ErrorObject {
            code: ErrorCode::MethodNotFound,
            message: "no such method".into(),
            data: Json::Null,
        },
        id: Id::String("q".into()),
    };
    let encoded = make().to_json();
    assert_eq!(
        render(&encoded),
        "{\"jsonrpc\":\"2.0\",\"error\":{\"code\":-32601,\"message\":\"no such method\",\"data\":null},\"id\":\"q\"}"
    );
    assert_eq!(Error::from_json(encoded), Ok(make()));
}

#[test]
fn error_server_code_round_trip() {
    let make = |c: i64| ErrorObject { code: ErrorCode::from(c), message: "m".into(), data: num(1) };
    for c in [-32000i64, -32099, -1, 5] {
        assert_eq!(ErrorObject::from_json(make(c).to_json()), Ok(make(c)));
    }
}

#[test]
fn missing_members_are_reported() {
    assert_eq!(
        Request::from_json(parse("{\"method\":\"m\",\"id\":1}")),
        Err(FormatError::MissingField(Field::Jsonrpc))
    );
    assert_eq!(
        Request::from_json(parse("{\"jsonrpc\":\"2.0\",\"id\":1}")),
        Err(FormatError::MissingField(Field::Method))
    );
    assert_eq!(
        Request::from_json(parse("{\"jsonrpc\":\"2.0\",\"method\":\"m\"}")),
        Err(FormatError::MissingField(Field::Id))
    );
    assert_eq!(
        jrpc::Result::from_json(parse("{\"jsonrpc\":\"2.0\",\"id\":1}")),
        Err(FormatError::MissingField(Field::Result))
    );
    assert_eq!(
        Error::from_json(parse("{\"jsonrpc\":\"2.0\",\"id\":1}")),
        Err(FormatError::MissingField(Field::Error))
    );
    assert_eq!(
        ErrorObject::from_json(parse("{\"message\":\"x\",\"data\":1}")),
        Err(FormatError::MissingField(Field::Code))
    );
    assert_eq!(
        ErrorObject::from_json(parse("{\"code\":1,\"data\":1}")),
        Err(FormatError::MissingField(Field::Message))
    );
    assert_eq!(
        ErrorObject::from_json(parse("{\"code\":1,\"message\":\"x\"}")),
        Err(FormatError::MissingField(Field::Data))
    );
}

#[test]
fn wrong_member_types_are_reported() {
    assert_eq!(Request::from_json(parse("[1]")), Err(FormatError::NotAnObject));
    assert_eq!(
        Request::from_json(parse("{\"jsonrpc\":\"2.0\",\"method\":3,\"id\":1}")),
        Err(FormatError::InvalidType(Field::Method))
    );
    assert_eq!(
        Request::from_json(parse("{\"jsonrpc\":\"2.0\",\"method\":\"m\",\"id\":-4}")),
        Err(FormatError::InvalidId)
    );
    assert_eq!(
        Error::from_json(parse("{\"jsonrpc\":\"2.0\",\"error\":\"bad\",\"id\":1}")),
        Err(FormatError::NotAnObject)
    );
    assert_eq!(
        ErrorObject::from_json(parse("{\"code\":\"x\",\"message\":\"x\",\"data\":1}")),
        Err(FormatError::InvalidType(Field::Code))
    );
    assert_eq!(
        ErrorObject::from_json(parse("{\"code\":9223372036854775808,\"message\":\"x\",\"data\":1}")),
        Err(FormatError::InvalidType(Field::Code))
    );
    assert_eq!(
        ErrorObject::from_json(parse("{\"code\":1,\"message\":2,\"data\":1}")),
        Err(FormatError::InvalidType(Field::Message))
    );
}

#[test]
fn first_of_repeated_keys_counts() {
    let members = vec![
        ("jsonrpc".to_string(), Json::Str("2.0".into())),
        ("method".to_string(), Json::Str("first".into())),
        ("method".to_string(), Json::Str("second".into())),
        ("other".to_string(), Json::Bool(true)),
        ("id".to_string(), num(2)),
    ];
    let request = Request::from_json(Json::Object(members)).unwrap();
    assert_eq!(request.method, "first");
    assert_eq!(request.params, None);
}

#[test]
fn field_keys_and_descriptions() {
    assert_eq!(Field::Jsonrpc.key(), "jsonrpc");
    assert_eq!(Field::Params.key(), "params");
    assert_eq!(Field::Data.key(), "data");
    assert_eq!(FormatError::InvalidId.description(), "invalid id shape");
    assert_eq!(
        FormatError::UnsupportedVersion.description(),
        "unsupported or missing protocol version"
    );
    assert_eq!(FormatError::MissingField(Field::Id).description(), "missing field");
}
