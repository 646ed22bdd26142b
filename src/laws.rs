use vstd::prelude::*;

use crate::json::{member, JsonValue};
use crate::handler::{handle_spec, HandledView};
use crate::protocol::{
    dispatch_spec, method_named, params_fit, request_of, standard_entries, DispatchedView, Method,
    OutcomeView, RequestView,
};
use crate::response::{
    json_of_response, respond_spec, response_of_json, ResponseView, INVALID_PARAMS,
    METHOD_NOT_FOUND,
};

verus! {

/// Whatever a decoded request leads to (a response, or the floating-point work
/// of `floor` or `nroot`), it carries the request's id.
pub proof fn lemma_request_id_kept(
    entries: Seq<(Seq<char>, Method)>,
    parsed: JsonValue,
    request: RequestView,
)
    requires
        request_of(parsed) == Some(request),
    ensures
        match handle_spec(entries, Some(parsed)) {
            HandledView::Reply(r) => r.id() == request.id,
            HandledView::Floor(_, id) => id == request.id,
            HandledView::Root(_, _, id) => id == request.id,
        },
{
}

/// A request for a name that the registry does not hold is answered with code
/// -32601, message "Method not found", and the request's id.
pub proof fn lemma_unknown_method(name: Seq<char>, params: JsonValue, id: u64)
    requires
        method_named(name) is None,
    ensures
        dispatch_spec(standard_entries(), name, params) == DispatchedView::Ready(OutcomeView::NotFound),
        respond_spec(OutcomeView::NotFound, id) == (ResponseView::Error {
            code: METHOD_NOT_FOUND,
            message: "Method not found"@,
            id,
        }),
{
}

/// A known method called on parameters of the wrong arity or element type is
/// answered with code -32602, message "Invalid params", and the request's id.
pub proof fn lemma_invalid_params(name: Seq<char>, m: Method, params: JsonValue, id: u64)
    requires
        method_named(name) == Some(m),
        !params_fit(m, params),
    ensures
        dispatch_spec(standard_entries(), name, params) == DispatchedView::Ready(
            OutcomeView::MethodError("Invalid params"@),
        ),
        respond_spec(OutcomeView::MethodError("Invalid params"@), id) == (ResponseView::Error {
            code: INVALID_PARAMS,
            message: "Invalid params"@,
            id,
        }),
{
}

/// Dispatch is pure: the same request, dispatched twice against the same
/// registry, leads to the same outcome each time.
pub proof fn lemma_dispatch_idempotent(
    entries: Seq<(Seq<char>, Method)>,
    first: RequestView,
    second: RequestView,
)
    requires
        first == second,
    ensures
        dispatch_spec(entries, first.method, first.params) == dispatch_spec(
            entries,
            second.method,
            second.params,
        ),
{
}

/// Decoding the JSON object of a response gives back its id and its result and
/// type tag, or its error code and message.
pub proof fn lemma_response_round_trip(j: JsonValue, r: ResponseView)
    requires
        json_of_response(j, r),
    ensures
        response_of_json(j) == Some(r),
{
    reveal_strlit("result");
    reveal_strlit("result_type");
    reveal_strlit("id");
    reveal_strlit("error");
    reveal_strlit("code");
    reveal_strlit("message");
    assert("result"@.len() == 6 && "result_type"@.len() == 11 && "id"@.len() == 2);
    assert("error"@.len() == 5 && "code"@.len() == 4 && "message"@.len() == 7);
    reveal_with_fuel(member, 4);
    match j {
        JsonValue::Object(ms) => {
            let s = ms@;
            match r {
                ResponseView::Success { .. } => {
                    assert(s.drop_first().drop_first().drop_first().len() == 0);
                },
                ResponseView::Error { .. } => {
                    assert(s.drop_first().drop_first().len() == 0);
                    match s[0].1 {
                        JsonValue::Object(es) => {
                            assert(es@.drop_first().drop_first().len() == 0);
                        },
                        _ => {},
                    }
                },
            }
        },
        _ => {},
    }
}

} // verus!
