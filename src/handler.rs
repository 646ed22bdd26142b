use vstd::prelude::*;

use crate::json::{JsonNumber, JsonValue};
use crate::protocol::{
    Method, decode_request, dispatch, dispatch_spec, request_of, Dispatched, DispatchedView, MethodTable,
};
use crate::response::{
    decode_failure_response, decode_failure_spec, respond, respond_spec, Response, ResponseView,
};

verus! {

/// What handling one request line leads to, as plain values.
pub enum HandledView {
    Reply(ResponseView),
    Floor(JsonNumber, u64),
    Root(JsonNumber, JsonNumber, u64),
}

/// What handling one request line leads to: the response to send, or the
/// floating-point work of `floor` or `nroot` with the id that its response carries.
#[derive(Debug, PartialEq, Eq)]
pub enum Handled {
    Reply(Response),
    Floor(JsonNumber, u64),
    Root(JsonNumber, JsonNumber, u64),
}

impl View for Handled {
    type V = HandledView;

    open spec fn view(&self) -> HandledView {
        match self {
            Handled::Reply(r) => HandledView::Reply(r@),
            Handled::Floor(x, id) => HandledView::Floor(*x, *id),
            Handled::Root(n, x, id) => HandledView::Root(*n, *x, *id),
        }
    }
}

/// Handling a line that parsed as `parsed` (or did not parse: `None`).
pub open spec fn handle_spec(entries: Seq<(Seq<char>, Method)>, parsed: Option<JsonValue>) -> HandledView {
    match parsed {
        None => HandledView::Reply(decode_failure_spec()),
        Some(v) => match request_of(v) {
            None => HandledView::Reply(decode_failure_spec()),
            Some(rq) => match dispatch_spec(entries, rq.method, rq.params) {
                DispatchedView::Ready(o) => HandledView::Reply(respond_spec(o, rq.id)),
                DispatchedView::Floor(x) => HandledView::Floor(x, rq.id),
                DispatchedView::Root(n, x) => HandledView::Root(n, x, rq.id),
            },
        },
    }
}

/// Decodes a parsed request line, dispatches it and answers it.
pub fn handle(table: &MethodTable, parsed: Option<JsonValue>) -> (h: Handled)
    ensures
        h@ == handle_spec(table@, parsed),
{
    let v = match parsed {
        Some(v) => v,
        None => {
            return Handled::Reply(decode_failure_response());
        },
    };
    match decode_request(v) {
        Err(_) => Handled::Reply(decode_failure_response()),
        Ok(request) => match dispatch(table, &request) {
            Dispatched::Ready(o) => Handled::Reply(respond(o, request.id)),
            Dispatched::Floor(x) => Handled::Floor(x, request.id),
            Dispatched::Root(n, x) => Handled::Root(n, x, request.id),
        },
    }
}

} // verus!
