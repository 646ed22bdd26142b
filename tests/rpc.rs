use rpc_server::handler::{handle, Handled};
use rpc_server::json::{JsonNumber, JsonValue};
use rpc_server::methods::{rpc_reverse, rpc_sort, rpc_valid_anagram};
use rpc_server::protocol::{
    create_method_table, decode_request, dispatch, floor_outcome, nroot_outcome, Dispatched,
    Method, Outcome, Request,
};
use rpc_server::response::{
    decode_failure_response, encode_response, respond, response_from_json, response_to_json,
    Response,
};

fn s(text: &str) -> JsonValue {
    JsonValue::Str(text.to_string())
}

fn float(x: f64) -> JsonValue {
    JsonValue::Number(JsonNumber::Float(x.to_bits()))
}

fn uint(n: u64) -> JsonValue {
    JsonValue::Number(JsonNumber::PosInt(n))
}

fn request_value(method: &str, params: JsonValue, id: u64) -> JsonValue {
    JsonValue::Object(vec![
        ("method".to_string(), s(method)),
        ("params".to_string(), params),
        ("id".to_string(), uint(id)),
    ])
}

fn as_f64(n: JsonNumber) -> f64 {
    match n {
        JsonNumber::PosInt(u) => u as f64,
        JsonNumber::NegInt(i) => i as f64,
        JsonNumber::Float(bits) => f64::from_bits(bits),
    }
}

fn reply(method: &str, params: JsonValue, id: u64) -> Response {
    let table = create_method_table();
    match handle(&table, Some(request_value(method, params, id))) {
        Handled::Reply(r) => r,
        Handled::Floor(x, id) => respond(floor_outcome(as_f64(x).floor().to_string()), id),
        Handled::Root(n, x, id) => {
            respond(nroot_outcome(as_f64(x).powf(1.0 / as_f64(n)).to_string()), id)
        }
    }
}

fn success(r: &Response) -> (String, String, u64) {
    match r {
        Response::Success { result, result_type, id } => (result.clone(), result_type.clone(), *id),
        Response::Error { .. } => panic!("expected a success response"),
    }
}

fn error(r: &Response) -> (i32, String, u64) {
    match r {
        Response::Error { code, message, id } => (*code, message.clone(), *id),
        Response::Success { .. } => panic!("expected an error response"),
    }
}

#[test]
fn floor_rounds_down() {
    let r = reply("floor", JsonValue::Array(vec![float(3.7)]), 1);
    assert_eq!(success(&r), ("3".to_string(), "int".to_string(), 1));
    let r = reply("floor", JsonValue::Array(vec![float(-3.2)]), 2);
    assert_eq!(success(&r), ("-4".to_string(), "int".to_string(), 2));
}

#[test]
fn floor_dispatch_hands_over_the_number() {
    let table = create_method_table();
    let request = Request {
        method: "floor".to_string(),
        params: JsonValue::Array(vec![float(3.7)]),
        param_types: None,
        id: 5,
    };
    match dispatch(&table, &request) {
        Dispatched::Floor(x) => assert_eq!(x, JsonNumber::Float(3.7f64.to_bits())),
        _ => panic!("floor should wait for its number"),
    }
}

#[test]
fn nroot_square_root_of_sixteen() {
    let r = reply("nroot", JsonValue::Array(vec![uint(2), uint(16)]), 3);
    assert_eq!(success(&r), ("4".to_string(), "double".to_string(), 3));
}

#[test]
fn reverse_abc() {
    let r = reply("reverse", JsonValue::Array(vec![s("abc")]), 4);
    assert_eq!(success(&r), ("cba".to_string(), "string".to_string(), 4));
}

#[test]
fn reverse_empty_and_multibyte() {
    assert_eq!(
        rpc_reverse(&JsonValue::Array(vec![s("")])),
        Ok(("".to_string(), "string".to_string()))
    );
    assert_eq!(
        rpc_reverse(&JsonValue::Array(vec![s("añb€")])),
        Ok(("€bña".to_string(), "string".to_string()))
    );
}

#[test]
fn valid_anagram_true_and_false() {
    let r = reply("valid_anagram", JsonValue::Array(vec![s("listen"), s("silent")]), 5);
    assert_eq!(success(&r), ("true".to_string(), "bool".to_string(), 5));
    let r = reply("valid_anagram", JsonValue::Array(vec![s("ab"), s("abc")]), 6);
    assert_eq!(success(&r), ("false".to_string(), "bool".to_string(), 6));
}

#[test]
fn valid_anagram_counts_repeats() {
    let p = JsonValue::Array(vec![s("aab"), s("abb")]);
    assert_eq!(rpc_valid_anagram(&p), Ok(("false".to_string(), "bool".to_string())));
    let p = JsonValue::Array(vec![s(""), s("")]);
    assert_eq!(rpc_valid_anagram(&p), Ok(("true".to_string(), "bool".to_string())));
}

#[test]
fn sort_three_strings() {
    let items = JsonValue::Array(vec![s("banana"), s("apple"), s("cherry")]);
    let r = reply("sort", JsonValue::Array(vec![items]), 7);
    assert_eq!(
        success(&r),
        ("[\"apple\",\"banana\",\"cherry\"]".to_string(), "string".to_string(), 7)
    );
}

#[test]
fn sort_edge_cases() {
    let empty = JsonValue::Array(vec![JsonValue::Array(vec![])]);
    assert_eq!(rpc_sort(&empty), Ok(("[]".to_string(), "string".to_string())));
    let mixed = JsonValue::Array(vec![JsonValue::Array(vec![s("b"), s("B"), s("ab"), s("a"), s("b")])]);
    assert_eq!(
        rpc_sort(&mixed),
        Ok(("[\"B\",\"a\",\"ab\",\"b\",\"b\"]".to_string(), "string".to_string()))
    );
    let quoted = JsonValue::Array(vec![JsonValue::Array(vec![s("x\"y")])]);
    assert_eq!(rpc_sort(&quoted), Ok(("[\"x\\\"y\"]".to_string(), "string".to_string())));
}

#[test]
fn unknown_method_is_not_found() {
    let r = reply("cube", JsonValue::Array(vec![uint(3)]), 42);
    assert_eq!(error(&r), (-32601, "Method not found".to_string(), 42));
}

#[test]
fn undecodable_line_gets_invalid_params_with_id_zero() {
    let table = create_method_table();
    match handle(&table, None) {
        Handled::Reply(r) => assert_eq!(error(&r), (-32602, "Invalid params".to_string(), 0)),
        _ => panic!("expected a reply"),
    }
    let no_id = JsonValue::Object(vec![
        ("method".to_string(), s("floor")),
        ("params".to_string(), JsonValue::Null),
    ]);
    match handle(&table, Some(no_id)) {
        Handled::Reply(r) => assert_eq!(error(&r), (-32602, "Invalid params".to_string(), 0)),
        _ => panic!("expected a reply"),
    }
    assert_eq!(
        encode_response(&decode_failure_response()),
        "{\"error\":{\"code\":-32602,\"message\":\"Invalid params\"},\"id\":0}\n"
    );
}

#[test]
fn wrong_arity_or_type_is_invalid_params() {
    let cases: Vec<(&str, JsonValue)> = vec![
        ("floor", JsonValue::Array(vec![])),
        ("floor", JsonValue::Array(vec![s("3.7")])),
        ("floor", float(3.7)),
        ("nroot", JsonValue::Array(vec![uint(2)])),
        ("nroot", JsonValue::Array(vec![uint(2), s("16")])),
        ("reverse", JsonValue::Array(vec![uint(1)])),
        ("reverse", JsonValue::Null),
        ("valid_anagram", JsonValue::Array(vec![s("ab")])),
        ("valid_anagram", JsonValue::Array(vec![s("ab"), JsonValue::Bool(true)])),
        ("sort", JsonValue::Array(vec![s("a")])),
        ("sort", JsonValue::Array(vec![JsonValue::Array(vec![s("a"), uint(1)])])),
    ];
    for (i, (method, params)) in cases.into_iter().enumerate() {
        let r = reply(method, params, 100 + i as u64);
        assert_eq!(error(&r), (-32602, "Invalid params".to_string(), 100 + i as u64));
    }
}

#[test]
fn same_request_twice_same_response() {
    let params = || JsonValue::Array(vec![JsonValue::Array(vec![s("q"), s("p")])]);
    assert_eq!(reply("sort", params(), 9), reply("sort", params(), 9));
    let params = || JsonValue::Array(vec![s("stressed")]);
    assert_eq!(reply("reverse", params(), 9), reply("reverse", params(), 9));
}

#[test]
fn response_id_matches_request_id() {
    let r = reply("reverse", JsonValue::Array(vec![s("x")]), u64::MAX);
    assert_eq!(success(&r).2, u64::MAX);
    assert_eq!(
        encode_response(&r),
        "{\"result\":\"x\",\"result_type\":\"string\",\"id\":18446744073709551615}\n"
    );
}

#[test]
fn responses_round_trip_through_json() {
    let responses = vec![
        respond(Outcome::Success("a\"b\n".to_string(), "string".to_string()), 11),
        respond(Outcome::MethodError("Invalid params".to_string()), 12),
        respond(Outcome::NotFound, 0),
    ];
    for r in responses {
        assert_eq!(response_from_json(&response_to_json(&r)), Some(r.clone()));
        let line = encode_response(&r);
        assert!(line.ends_with('\n'));
        assert_eq!(line.matches('\n').count(), 1);
        let parsed: serde_json::Value = serde_json::from_str(line.trim_end()).unwrap();
        match &r {
            Response::Success { result, result_type, id } => {
                assert_eq!(parsed["result"].as_str(), Some(result.as_str()));
                assert_eq!(parsed["result_type"].as_str(), Some(result_type.as_str()));
                assert_eq!(parsed["id"].as_u64(), Some(*id));
            }
            Response::Error { code, message, id } => {
                assert_eq!(parsed["error"]["code"].as_i64(), Some(*code as i64));
                assert_eq!(parsed["error"]["message"].as_str(), Some(message.as_str()));
                assert_eq!(parsed["id"].as_u64(), Some(*id));
            }
        }
    }
}

#[test]
fn encode_escapes_result_text() {
    let r = respond(Outcome::Success("say \"hi\"".to_string(), "string".to_string()), 1);
    assert_eq!(
        encode_response(&r),
        "{\"result\":\"say \\\"hi\\\"\",\"result_type\":\"string\",\"id\":1}\n"
    );
}

#[test]
fn registry_holds_the_five_methods() {
    let table = create_method_table();
    assert_eq!(table.get("floor"), Some(Method::Floor));
    assert_eq!(table.get("nroot"), Some(Method::Nroot));
    assert_eq!(table.get("reverse"), Some(Method::Reverse));
    assert_eq!(table.get("valid_anagram"), Some(Method::ValidAnagram));
    assert_eq!(table.get("sort"), Some(Method::Sort));
    assert_eq!(table.get("Floor"), None);
    assert_eq!(table.get(""), None);
}

#[test]
fn decode_accepts_both_request_shapes() {
    let object = JsonValue::Object(vec![
        ("id".to_string(), uint(8)),
        ("param_types".to_string(), JsonValue::Array(vec![s("string")])),
        ("params".to_string(), JsonValue::Array(vec![s("abc")])),
        ("method".to_string(), s("reverse")),
    ]);
    let r = decode_request(object).unwrap();
    assert_eq!(r.method, "reverse");
    assert_eq!(r.params, JsonValue::Array(vec![s("abc")]));
    assert_eq!(r.param_types, Some(vec!["string".to_string()]));
    assert_eq!(r.id, 8);
    let array = JsonValue::Array(vec![s("sort"), JsonValue::Null, JsonValue::Null, uint(3)]);
    let r = decode_request(array).unwrap();
    assert_eq!(r.method, "sort");
    assert_eq!(r.param_types, None);
    assert_eq!(r.id, 3);
}

#[test]
fn decode_rejects_ill_shaped_requests() {
    let negative_id = JsonValue::Object(vec![
        ("method".to_string(), s("floor")),
        ("params".to_string(), JsonValue::Null),
        ("id".to_string(), JsonValue::Number(JsonNumber::NegInt(-1))),
    ]);
    assert!(decode_request(negative_id).is_err());
    let bad_types = JsonValue::Object(vec![
        ("method".to_string(), s("floor")),
        ("params".to_string(), JsonValue::Null),
        ("param_types".to_string(), JsonValue::Array(vec![uint(1)])),
        ("id".to_string(), uint(1)),
    ]);
    assert!(decode_request(bad_types).is_err());
    let method_not_string = request_value("floor", JsonValue::Null, 1);
    let method_not_string = match method_not_string {
        JsonValue::Object(mut ms) => {
            ms[0].1 = uint(7);
            JsonValue::Object(ms)
        }
        other => other,
    };
    assert!(decode_request(method_not_string).is_err());
    assert!(decode_request(JsonValue::Array(vec![s("sort"), JsonValue::Null, uint(3)])).is_err());
    assert!(decode_request(s("floor")).is_err());
}
