use vstd::prelude::*;

use crate::json::{member, JsonNumber, JsonValue};
use crate::methods::{
    arg_number, arg_str, arg_strings, floor_arg, nroot_args, reverse_spec, rpc_reverse, rpc_sort,
    rpc_valid_anagram, sort_spec, str_of, valid_anagram_spec, LeafView,
};
use crate::order::views;

verus! {

/// The methods that the server offers.
#[derive(Clone, Copy, Debug, PartialEq, Eq, Structural)]
pub enum Method {
    Floor,
    Nroot,
    Reverse,
    ValidAnagram,
    Sort,
}

/// The registry: each method under its name. Built once, read-only afterwards.
pub struct MethodTable {
    entries: Vec<(String, Method)>,
}

/// The method registered first under `name` among `entries`.
pub open spec fn lookup_in(entries: Seq<(Seq<char>, Method)>, name: Seq<char>) -> Option<Method>
    decreases entries.len(),
{
    if entries.len() == 0 {
        None
    } else if entries[0].0 == name {
        Some(entries[0].1)
    } else {
        lookup_in(entries.drop_first(), name)
    }
}

/// The registry's entries: exactly the five methods, each under its name.
pub open spec fn standard_entries() -> Seq<(Seq<char>, Method)> {
    seq![
        ("floor"@, Method::Floor),
        ("nroot"@, Method::Nroot),
        ("reverse"@, Method::Reverse),
        ("valid_anagram"@, Method::ValidAnagram),
        ("sort"@, Method::Sort),
    ]
}

/// The method that the registry holds under `name`.
pub open spec fn method_named(name: Seq<char>) -> Option<Method> {
    lookup_in(standard_entries(), name)
}

impl View for MethodTable {
    type V = Seq<(Seq<char>, Method)>;

    closed spec fn view(&self) -> Seq<(Seq<char>, Method)> {
        self.entries@.map_values(|e: (String, Method)| (e.0@, e.1))
    }
}

/// Builds the registry of the five methods.
pub fn create_method_table() -> (t: MethodTable)
    ensures
        t@ == standard_entries(),
{
    let mut entries: Vec<(String, Method)> = Vec::new();
    entries.push(("floor".to_owned(), Method::Floor));
    entries.push(("nroot".to_owned(), Method::Nroot));
    entries.push(("reverse".to_owned(), Method::Reverse));
    entries.push(("valid_anagram".to_owned(), Method::ValidAnagram));
    entries.push(("sort".to_owned(), Method::Sort));
    let t = MethodTable { entries };
    assert(t@ =~= standard_entries());
    t
}

impl MethodTable {
    /// The method registered under `name`, if any.
    pub fn get(&self, name: &str) -> (r: Option<Method>)
        ensures
            r == lookup_in(self@, name@),
    {
        let key = name.to_owned();
        let mut i: usize = 0;
        assert(self@.skip(0) =~= self@);
        while i < self.entries.len()
            invariant
                i <= self.entries@.len(),
                key@ == name@,
                lookup_in(self@, name@) == lookup_in(self@.skip(i as int), name@),
            decreases self.entries.len() - i,
        {
            assert(self@.skip(i as int).drop_first() =~= self@.skip(i + 1));
            if self.entries[i].0 == key {
                return Some(self.entries[i].1);
            }
            i = i + 1;
        }
        None
    }
}

/// A decoded request, as plain values.
pub struct RequestView {
    pub method: Seq<char>,
    pub params: JsonValue,
    pub param_types: Option<Seq<Seq<char>>>,
    pub id: u64,
}

/// A request: the method's name, its untyped parameters, optional declared
/// parameter types (carried, not used), and the id that the response repeats.
#[derive(Debug, PartialEq, Eq)]
pub struct Request {
    pub method: String,
    pub params: JsonValue,
    pub param_types: Option<Vec<String>>,
    pub id: u64,
}

impl View for Request {
    type V = RequestView;

    open spec fn view(&self) -> RequestView {
        RequestView {
            method: self.method@,
            params: self.params,
            param_types: match self.param_types {
                Some(t) => Some(views(t@)),
                None => None,
            },
            id: self.id,
        }
    }
}

/// Why a line could not be decoded into a request. Carries nothing further.
#[derive(Clone, Copy, Debug, PartialEq, Eq, Structural)]
pub struct DecodeError;

/// The strings of an array of strings.
pub open spec fn strings_of(v: JsonValue) -> Option<Seq<Seq<char>>> {
    match v {
        JsonValue::Array(a) => if forall|k: int| 0 <= k < a@.len() ==> (#[trigger] a@[k]) is Str {
            Some(a@.map_values(|x: JsonValue| str_of(x)))
        } else {
            None
        },
        _ => None,
    }
}

/// The optional parameter types: absent or null gives none, an array of strings
/// gives those strings; anything else does not decode (outer `None`).
pub open spec fn param_types_of(v: Option<JsonValue>) -> Option<Option<Seq<Seq<char>>>> {
    match v {
        None => Some(None),
        Some(JsonValue::Null) => Some(None),
        Some(x) => match strings_of(x) {
            Some(s) => Some(Some(s)),
            None => None,
        },
    }
}

pub open spec fn request_from_fields(
    method: Option<JsonValue>,
    params: Option<JsonValue>,
    param_types: Option<JsonValue>,
    id: Option<JsonValue>,
) -> Option<RequestView> {
    match (method, params, param_types_of(param_types), id) {
        (
            Some(JsonValue::Str(m)),
            Some(p),
            Some(t),
            Some(JsonValue::Number(JsonNumber::PosInt(n))),
        ) => Some(RequestView { method: m@, params: p, param_types: t, id: n }),
        _ => None,
    }
}

/// The request that a JSON value denotes: an object with the fields `method`
/// (a string), `params` (any value), `id` (a non-negative integer) and optionally
/// `param_types`; or an array of exactly those four in that order.
pub open spec fn request_of(v: JsonValue) -> Option<RequestView> {
    match v {
        JsonValue::Object(ms) => request_from_fields(
            member(ms@, "method"@),
            member(ms@, "params"@),
            member(ms@, "param_types"@),
            member(ms@, "id"@),
        ),
        JsonValue::Array(a) => if a@.len() == 4 {
            request_from_fields(Some(a@[0]), Some(a@[1]), Some(a@[2]), Some(a@[3]))
        } else {
            None
        },
        _ => None,
    }
}

/// The position of the first member named `key`.
pub fn find_member(members: &Vec<(String, JsonValue)>, key: &str) -> (r: Option<usize>)
    ensures
        match r {
            Some(i) => i < members@.len() && member(members@, key@) == Some(members@[i as int].1),
            None => member(members@, key@) is None,
        },
{
    let k = key.to_owned();
    let mut i: usize = 0;
    assert(members@.skip(0) =~= members@);
    while i < members.len()
        invariant
            i <= members@.len(),
            k@ == key@,
            member(members@, key@) == member(members@.skip(i as int), key@),
        decreases members.len() - i,
    {
        assert(members@.skip(i as int).drop_first() =~= members@.skip(i + 1));
        if members[i].0 == k {
            return Some(i);
        }
        i = i + 1;
    }
    None
}

pub open spec fn opt_val(o: Option<&JsonValue>) -> Option<JsonValue> {
    match o {
        Some(x) => Some(*x),
        None => None,
    }
}

/// The strings of `v`, when it is an array of strings.
pub fn get_strings(v: &JsonValue) -> (r: Option<Vec<String>>)
    ensures
        match strings_of(*v) {
            Some(s) => r is Some && views(r->Some_0@) == s,
            None => r is None,
        },
{
    let a = match v {
        JsonValue::Array(a) => a,
        _ => {
            return None;
        },
    };
    let mut out: Vec<String> = Vec::new();
    let mut i: usize = 0;
    while i < a.len()
        invariant
            *v == JsonValue::Array(*a),
            i <= a.len(),
            forall|k: int| 0 <= k < i ==> (#[trigger] a@[k]) is Str,
            views(out@) == a@.subrange(0, i as int).map_values(|x: JsonValue| str_of(x)),
        decreases a.len() - i,
    {
        let ghost before = out@;
        match &a[i] {
            JsonValue::Str(s) => {
                out.push(s.clone());
                assert(views(out@) =~= views(before).push(str_of(a@[i as int])));
            },
            _ => {
                return None;
            },
        }
        assert(views(out@) =~= a@.subrange(0, i + 1).map_values(|x: JsonValue| str_of(x)));
        i = i + 1;
    }
    assert(a@.subrange(0, a.len() as int) =~= a@);
    Some(out)
}

/// Checks the fields other than `params`; on success gives the method's name,
/// the parameter types and the id.
fn check_fields(method: Option<&JsonValue>, param_types: Option<&JsonValue>, id: Option<&JsonValue>) -> (r:
    Option<(String, Option<Vec<String>>, u64)>)
    ensures
        forall|p: JsonValue|
            #![trigger request_from_fields(opt_val(method), Some(p), opt_val(param_types), opt_val(id))]
            match request_from_fields(opt_val(method), Some(p), opt_val(param_types), opt_val(id)) {
                Some(rv) => r is Some && (Request {
                    method: r->Some_0.0,
                    params: p,
                    param_types: r->Some_0.1,
                    id: r->Some_0.2,
                })@ == rv,
                None => r is None,
            },
{
    let m = match method {
        Some(JsonValue::Str(m)) => m.clone(),
        _ => {
            return None;
        },
    };
    let n = match id {
        Some(JsonValue::Number(JsonNumber::PosInt(n))) => *n,
        _ => {
            return None;
        },
    };
    let t = match param_types {
        None => None,
        Some(JsonValue::Null) => None,
        Some(x) => match get_strings(x) {
            Some(s) => Some(s),
            None => {
                return None;
            },
        },
    };
    Some((m, t, n))
}

/// Turns a parsed JSON value into a request, or fails when it does not have the
/// request's shape.
pub fn decode_request(v: JsonValue) -> (r: Result<Request, DecodeError>)
    ensures
        match request_of(v) {
            Some(rv) => r is Ok && r->Ok_0@ == rv,
            None => r is Err,
        },
{
    match v {
        JsonValue::Object(mut ms) => {
            let im = find_member(&ms, "method");
            let it = find_member(&ms, "param_types");
            let ii = find_member(&ms, "id");
            let ip = find_member(&ms, "params");
            let fields = check_fields(
                match im { Some(i) => Some(&ms[i].1), None => None },
                match it { Some(i) => Some(&ms[i].1), None => None },
                match ii { Some(i) => Some(&ms[i].1), None => None },
            );
            match (fields, ip) {
                (Some((method, param_types, id)), Some(i)) => {
                    let (_, params) = ms.remove(i);
                    Ok(Request { method, params, param_types, id })
                },
                _ => Err(DecodeError),
            }
        },
        JsonValue::Array(mut a) => {
            if a.len() != 4 {
                return Err(DecodeError);
            }
            let fields = check_fields(Some(&a[0]), Some(&a[2]), Some(&a[3]));
            match fields {
                Some((method, param_types, id)) => {
                    let params = a.remove(1);
                    Ok(Request { method, params, param_types, id })
                },
                None => Err(DecodeError),
            }
        },
        _ => Err(DecodeError),
    }
}

/// The dispatcher's outcome, as plain values.
pub enum OutcomeView {
    Success(Seq<char>, Seq<char>),
    MethodError(Seq<char>),
    NotFound,
}

/// The dispatcher's outcome: a result with its type tag, a rejection of the
/// parameters by the method, or no such method.
#[derive(Clone, Debug, PartialEq, Eq)]
pub enum Outcome {
    Success(String, String),
    MethodError(String),
    NotFound,
}

impl View for Outcome {
    type V = OutcomeView;

    open spec fn view(&self) -> OutcomeView {
        match self {
            Outcome::Success(v, t) => OutcomeView::Success(v@, t@),
            Outcome::MethodError(m) => OutcomeView::MethodError(m@),
            Outcome::NotFound => OutcomeView::NotFound,
        }
    }
}

/// What dispatch leads to, as plain values.
pub enum DispatchedView {
    Ready(OutcomeView),
    Floor(JsonNumber),
    Root(JsonNumber, JsonNumber),
}

/// What dispatch leads to: an outcome, or the floating-point work that the
/// outcome of `floor` or `nroot` waits for, on checked arguments.
#[derive(Debug, PartialEq, Eq)]
pub enum Dispatched {
    Ready(Outcome),
    /// The floor of this number is to be computed.
    Floor(JsonNumber),
    /// The `n`-th root of `x` is to be computed.
    Root(JsonNumber, JsonNumber),
}

impl View for Dispatched {
    type V = DispatchedView;

    open spec fn view(&self) -> DispatchedView {
        match self {
            Dispatched::Ready(o) => DispatchedView::Ready(o@),
            Dispatched::Floor(x) => DispatchedView::Floor(*x),
            Dispatched::Root(n, x) => DispatchedView::Root(*n, *x),
        }
    }
}

pub open spec fn ready_of(l: LeafView) -> DispatchedView {
    match l {
        Ok((v, t)) => DispatchedView::Ready(OutcomeView::Success(v, t)),
        Err(m) => DispatchedView::Ready(OutcomeView::MethodError(m)),
    }
}

/// What calling method `m` on `params` leads to.
pub open spec fn call_spec(m: Method, params: JsonValue) -> DispatchedView {
    match m {
        Method::Floor => match arg_number(params, 0) {
            Some(x) => DispatchedView::Floor(x),
            None => DispatchedView::Ready(OutcomeView::MethodError("Invalid params"@)),
        },
        Method::Nroot => match (arg_number(params, 0), arg_number(params, 1)) {
            (Some(n), Some(x)) => DispatchedView::Root(n, x),
            _ => DispatchedView::Ready(OutcomeView::MethodError("Invalid params"@)),
        },
        Method::Reverse => ready_of(reverse_spec(params)),
        Method::ValidAnagram => ready_of(valid_anagram_spec(params)),
        Method::Sort => ready_of(sort_spec(params)),
    }
}

/// What a request for `name` with `params` leads to, given the registry `entries`.
pub open spec fn dispatch_spec(
    entries: Seq<(Seq<char>, Method)>,
    name: Seq<char>,
    params: JsonValue,
) -> DispatchedView {
    match lookup_in(entries, name) {
        Some(m) => call_spec(m, params),
        None => DispatchedView::Ready(OutcomeView::NotFound),
    }
}

/// Whether `params` have the shape that method `m` expects.
pub open spec fn params_fit(m: Method, params: JsonValue) -> bool {
    match m {
        Method::Floor => arg_number(params, 0) is Some,
        Method::Nroot => arg_number(params, 0) is Some && arg_number(params, 1) is Some,
        Method::Reverse => arg_str(params, 0) is Some,
        Method::ValidAnagram => arg_str(params, 0) is Some && arg_str(params, 1) is Some,
        Method::Sort => arg_strings(params) is Some,
    }
}

fn ready(r: Result<(String, String), String>) -> (d: Dispatched)
    ensures
        d@ == ready_of(crate::methods::leaf_view(r)),
{
    match r {
        Ok((v, t)) => Dispatched::Ready(Outcome::Success(v, t)),
        Err(m) => Dispatched::Ready(Outcome::MethodError(m)),
    }
}

/// Calls method `m` on `params`.
pub fn call(m: Method, params: &JsonValue) -> (d: Dispatched)
    ensures
        d@ == call_spec(m, *params),
{
    match m {
        Method::Floor => match floor_arg(params) {
            Ok(x) => Dispatched::Floor(x),
            Err(e) => Dispatched::Ready(Outcome::MethodError(e)),
        },
        Method::Nroot => match nroot_args(params) {
            Ok((n, x)) => Dispatched::Root(n, x),
            Err(e) => Dispatched::Ready(Outcome::MethodError(e)),
        },
        Method::Reverse => ready(rpc_reverse(params)),
        Method::ValidAnagram => ready(rpc_valid_anagram(params)),
        Method::Sort => ready(rpc_sort(params)),
    }
}

/// Looks the request's method up in the registry and calls it on the request's
/// parameters.
pub fn dispatch(table: &MethodTable, request: &Request) -> (d: Dispatched)
    ensures
        d@ == dispatch_spec(table@, request.method@, request.params),
{
    match table.get(request.method.as_str()) {
        Some(m) => call(m, &request.params),
        None => Dispatched::Ready(Outcome::NotFound),
    }
}

/// The outcome of `floor`, given the text of the floored number.
pub fn floor_outcome(text: String) -> (o: Outcome)
    ensures
        o@ == OutcomeView::Success(text@, "int"@),
{
    Outcome::Success(text, "int".to_owned())
}

/// The outcome of `nroot`, given the text of the computed root.
pub fn nroot_outcome(text: String) -> (o: Outcome)
    ensures
        o@ == OutcomeView::Success(text@, "double"@),
{
    Outcome::Success(text, "double".to_owned())
}

} // verus!
