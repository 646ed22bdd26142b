use vstd::prelude::*;

use crate::json::{member, JsonNumber, JsonValue};
use crate::methods::str_of;
use crate::protocol::{find_member, Outcome, OutcomeView};
use crate::text::{decimal, json_string_text, push_decimal, push_signed_decimal, push_str, quote, signed_decimal};

verus! {

/// Error code of a request for a method that the registry does not hold.
pub const METHOD_NOT_FOUND: i32 = -32601;

/// Error code of parameters, or of a whole request, that do not have the expected shape.
pub const INVALID_PARAMS: i32 = -32602;

/// A response, as plain values.
pub enum ResponseView {
    Success { result: Seq<char>, result_type: Seq<char>, id: u64 },
    Error { code: i32, message: Seq<char>, id: u64 },
}

/// A response: a result rendered as a string with its type tag, or an error.
#[derive(Clone, Debug, PartialEq, Eq)]
pub enum Response {
    Success { result: String, result_type: String, id: u64 },
    Error { code: i32, message: String, id: u64 },
}

impl View for Response {
    type V = ResponseView;

    open spec fn view(&self) -> ResponseView {
        match self {
            Response::Success { result, result_type, id } => ResponseView::Success {
                result: result@,
                result_type: result_type@,
                id: *id,
            },
            Response::Error { code, message, id } => ResponseView::Error {
                code: *code,
                message: message@,
                id: *id,
            },
        }
    }
}

impl ResponseView {
    pub open spec fn id(self) -> u64 {
        match self {
            ResponseView::Success { id, .. } => id,
            ResponseView::Error { id, .. } => id,
        }
    }
}

/// The response to a request with id `id` whose dispatch came to `o`.
pub open spec fn respond_spec(o: OutcomeView, id: u64) -> ResponseView {
    match o {
        OutcomeView::Success(v, t) => ResponseView::Success { result: v, result_type: t, id },
        OutcomeView::MethodError(m) => ResponseView::Error { code: INVALID_PARAMS, message: m, id },
        OutcomeView::NotFound => ResponseView::Error {
            code: METHOD_NOT_FOUND,
            message: "Method not found"@,
            id,
        },
    }
}

/// The response to a line that does not decode into a request.
pub open spec fn decode_failure_spec() -> ResponseView {
    ResponseView::Error { code: INVALID_PARAMS, message: "Invalid params"@, id: 0 }
}

/// The response to a request with id `id` whose dispatch came to `o`.
pub fn respond(o: Outcome, id: u64) -> (r: Response)
    ensures
        r@ == respond_spec(o@, id),
{
    match o {
        Outcome::Success(result, result_type) => Response::Success { result, result_type, id },
        Outcome::MethodError(message) => Response::Error { code: INVALID_PARAMS, message, id },
        Outcome::NotFound => Response::Error {
            code: METHOD_NOT_FOUND,
            message: "Method not found".to_owned(),
            id,
        },
    }
}

/// The response to a line that does not decode into a request; its id is 0.
pub fn decode_failure_response() -> (r: Response)
    ensures
        r@ == decode_failure_spec(),
{
    Response::Error { code: INVALID_PARAMS, message: "Invalid params".to_owned(), id: 0 }
}

/// The compact JSON text of a response, fields in the order of the wire shape.
pub open spec fn response_text(r: ResponseView) -> Seq<char> {
    match r {
        ResponseView::Success { result, result_type, id } => "{\"result\":"@ + json_string_text(result)
            + ",\"result_type\":"@ + json_string_text(result_type) + ",\"id\":"@ + decimal(id as nat)
            + "}"@,
        ResponseView::Error { code, message, id } => "{\"error\":{\"code\":"@ + signed_decimal(
            code as int,
        ) + ",\"message\":"@ + json_string_text(message) + "},\"id\":"@ + decimal(id as nat) + "}"@,
    }
}

/// The line sent for a response: its JSON text and one line terminator.
pub fn encode_response(r: &Response) -> (line: String)
    ensures
        line@ == response_text(r@) + seq!['\n'],
{
    let mut out = String::new();
    match r {
        Response::Success { result, result_type, id } => {
            push_str(&mut out, "{\"result\":");
            push_str(&mut out, quote(result.as_str()).as_str());
            push_str(&mut out, ",\"result_type\":");
            push_str(&mut out, quote(result_type.as_str()).as_str());
            push_str(&mut out, ",\"id\":");
            push_decimal(&mut out, *id);
            push_str(&mut out, "}\n");
        },
        Response::Error { code, message, id } => {
            push_str(&mut out, "{\"error\":{\"code\":");
            push_signed_decimal(&mut out, *code as i64);
            push_str(&mut out, ",\"message\":");
            push_str(&mut out, quote(message.as_str()).as_str());
            push_str(&mut out, "},\"id\":");
            push_decimal(&mut out, *id);
            push_str(&mut out, "}\n");
        },
    }
    proof {
        reveal_strlit("}\n");
        reveal_strlit("}");
    }
    assert(out@ =~= response_text(r@) + seq!['\n']);
    out
}

/// How a JSON number holds an error code.
pub open spec fn code_number(c: i32) -> JsonNumber {
    if c < 0 {
        JsonNumber::NegInt(c as i64)
    } else {
        JsonNumber::PosInt(c as u64)
    }
}

/// The error code that a JSON number holds, when it is an integer that fits.
pub open spec fn code_of(n: JsonNumber) -> Option<i32> {
    match n {
        JsonNumber::NegInt(i) => if i32::MIN <= i { Some(i as i32) } else { None },
        JsonNumber::PosInt(u) => if u <= i32::MAX { Some(u as i32) } else { None },
        JsonNumber::Float(_) => None,
    }
}

pub open spec fn is_text(v: JsonValue, s: Seq<char>) -> bool {
    v is Str && str_of(v) == s
}

/// Whether `j` is the JSON object of response `r`, with its members in wire order.
pub open spec fn json_of_response(j: JsonValue, r: ResponseView) -> bool {
    match (j, r) {
        (JsonValue::Object(ms), ResponseView::Success { result, result_type, id }) => {
            &&& ms@.len() == 3
            &&& ms@[0].0@ == "result"@ && is_text(ms@[0].1, result)
            &&& ms@[1].0@ == "result_type"@ && is_text(ms@[1].1, result_type)
            &&& ms@[2].0@ == "id"@ && ms@[2].1 == JsonValue::Number(JsonNumber::PosInt(id))
        },
        (JsonValue::Object(ms), ResponseView::Error { code, message, id }) => {
            &&& ms@.len() == 2
            &&& ms@[0].0@ == "error"@
            &&& match ms@[0].1 {
                JsonValue::Object(es) => {
                    &&& es@.len() == 2
                    &&& es@[0].0@ == "code"@ && es@[0].1 == JsonValue::Number(code_number(code))
                    &&& es@[1].0@ == "message"@ && is_text(es@[1].1, message)
                },
                _ => false,
            }
            &&& ms@[1].0@ == "id"@ && ms@[1].1 == JsonValue::Number(JsonNumber::PosInt(id))
        },
        _ => false,
    }
}

/// The response that a JSON value denotes: an object with an `error` object
/// (integer `code`, string `message`) and `id`, or one with string `result`,
/// string `result_type` and `id`.
pub open spec fn response_of_json(j: JsonValue) -> Option<ResponseView> {
    match j {
        JsonValue::Object(ms) => match member(ms@, "error"@) {
            Some(JsonValue::Object(es)) => match (
                member(es@, "code"@),
                member(es@, "message"@),
                member(ms@, "id"@),
            ) {
                (
                    Some(JsonValue::Number(c)),
                    Some(JsonValue::Str(m)),
                    Some(JsonValue::Number(JsonNumber::PosInt(id))),
                ) => match code_of(c) {
                    Some(code) => Some(ResponseView::Error { code, message: m@, id }),
                    None => None,
                },
                _ => None,
            },
            Some(_) => None,
            None => match (
                member(ms@, "result"@),
                member(ms@, "result_type"@),
                member(ms@, "id"@),
            ) {
                (
                    Some(JsonValue::Str(v)),
                    Some(JsonValue::Str(t)),
                    Some(JsonValue::Number(JsonNumber::PosInt(id))),
                ) => Some(ResponseView::Success { result: v@, result_type: t@, id }),
                _ => None,
            },
        },
        _ => None,
    }
}

/// The JSON object of a response.
pub fn response_to_json(r: &Response) -> (j: JsonValue)
    ensures
        json_of_response(j, r@),
{
    match r {
        Response::Success { result, result_type, id } => {
            let mut ms: Vec<(String, JsonValue)> = Vec::new();
            ms.push(("result".to_owned(), JsonValue::Str(result.clone())));
            ms.push(("result_type".to_owned(), JsonValue::Str(result_type.clone())));
            ms.push(("id".to_owned(), JsonValue::Number(JsonNumber::PosInt(*id))));
            JsonValue::Object(ms)
        },
        Response::Error { code, message, id } => {
            let c = if *code < 0 {
                JsonNumber::NegInt(*code as i64)
            } else {
                JsonNumber::PosInt(*code as u64)
            };
            let mut es: Vec<(String, JsonValue)> = Vec::new();
            es.push(("code".to_owned(), JsonValue::Number(c)));
            es.push(("message".to_owned(), JsonValue::Str(message.clone())));
            let mut ms: Vec<(String, JsonValue)> = Vec::new();
            ms.push(("error".to_owned(), JsonValue::Object(es)));
            ms.push(("id".to_owned(), JsonValue::Number(JsonNumber::PosInt(*id))));
            JsonValue::Object(ms)
        },
    }
}

fn code_from(n: JsonNumber) -> (r: Option<i32>)
    ensures
        r == code_of(n),
{
    match n {
        JsonNumber::NegInt(i) => if i >= i32::MIN as i64 { Some(i as i32) } else { None },
        JsonNumber::PosInt(u) => if u <= i32::MAX as u64 { Some(u as i32) } else { None },
        JsonNumber::Float(_) => None,
    }
}

fn text_member(ms: &Vec<(String, JsonValue)>, key: &str) -> (r: Option<String>)
    ensures
        match member(ms@, key@) {
            Some(JsonValue::Str(s)) => r is Some && r->Some_0@ == s@,
            _ => r is None,
        },
{
    match find_member(ms, key) {
        Some(i) => match &ms[i].1 {
            JsonValue::Str(s) => Some(s.clone()),
            _ => None,
        },
        None => None,
    }
}

fn id_member(ms: &Vec<(String, JsonValue)>) -> (r: Option<u64>)
    ensures
        match member(ms@, "id"@) {
            Some(JsonValue::Number(JsonNumber::PosInt(n))) => r == Some(n),
            _ => r is None,
        },
{
    match find_member(ms, "id") {
        Some(i) => match &ms[i].1 {
            JsonValue::Number(JsonNumber::PosInt(n)) => Some(*n),
            _ => None,
        },
        None => None,
    }
}

/// Reads a response back from its JSON object.
pub fn response_from_json(j: &JsonValue) -> (r: Option<Response>)
    ensures
        match response_of_json(*j) {
            Some(rv) => r is Some && r->Some_0@ == rv,
            None => r is None,
        },
{
    let ms = match j {
        JsonValue::Object(ms) => ms,
        _ => {
            return None;
        },
    };
    let id = id_member(ms);
    match find_member(ms, "error") {
        Some(ie) => match &ms[ie].1 {
            JsonValue::Object(es) => {
                let code = match find_member(es, "code") {
                    Some(i) => match &es[i].1 {
                        JsonValue::Number(n) => code_from(*n),
                        _ => None,
                    },
                    None => None,
                };
                let message = text_member(es, "message");
                match (code, message, id) {
                    (Some(code), Some(message), Some(id)) => Some(Response::Error { code, message, id }),
                    _ => None,
                }
            },
            _ => None,
        },
        None => {
            let result = text_member(ms, "result");
            let result_type = text_member(ms, "result_type");
            match (result, result_type, id) {
                (Some(result), Some(result_type), Some(id)) => Some(
                    Response::Success { result, result_type, id },
                ),
                _ => None,
            }
        },
    }
}

} // verus!
