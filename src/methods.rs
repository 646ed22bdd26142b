use vstd::prelude::*;

use crate::json::{JsonNumber, JsonValue};
use crate::order::{sorted_of, sorted_strings, string_array, string_array_text, views};
use crate::text::push_char;

verus! {

broadcast use vstd::seq_lib::group_to_multiset_ensures;

/// What a leaf method hands back, as plain sequences: the result and its type tag,
/// or the error message.
pub type LeafView = Result<(Seq<char>, Seq<char>), Seq<char>>;

pub open spec fn leaf_view(r: Result<(String, String), String>) -> LeafView {
    match r {
        Ok((v, t)) => Ok((v@, t@)),
        Err(m) => Err(m@),
    }
}

pub open spec fn invalid_params() -> LeafView {
    Err("Invalid params"@)
}

/// The `i`-th positional argument, when the parameters are an array that long.
pub open spec fn arg(params: JsonValue, i: int) -> Option<JsonValue> {
    match params {
        JsonValue::Array(a) => if 0 <= i < a@.len() { Some(a@[i]) } else { None },
        _ => None,
    }
}

pub open spec fn arg_str(params: JsonValue, i: int) -> Option<Seq<char>> {
    match arg(params, i) {
        Some(JsonValue::Str(s)) => Some(s@),
        _ => None,
    }
}

pub open spec fn arg_number(params: JsonValue, i: int) -> Option<JsonNumber> {
    match arg(params, i) {
        Some(JsonValue::Number(n)) => Some(n),
        _ => None,
    }
}

/// `reverse`: the first argument, a string, with its characters in reverse order.
pub open spec fn reverse_spec(params: JsonValue) -> LeafView {
    match arg_str(params, 0) {
        Some(s) => Ok((s.reverse(), "string"@)),
        None => invalid_params(),
    }
}

/// Two character sequences are anagrams when they hold the same characters
/// the same number of times.
pub open spec fn is_anagram(a: Seq<char>, b: Seq<char>) -> bool {
    a.to_multiset() == b.to_multiset()
}

pub open spec fn bool_text(b: bool) -> Seq<char> {
    if b { "true"@ } else { "false"@ }
}

/// `valid_anagram`: whether the first two arguments, both strings, are anagrams.
pub open spec fn valid_anagram_spec(params: JsonValue) -> LeafView {
    match (arg_str(params, 0), arg_str(params, 1)) {
        (Some(a), Some(b)) => Ok((bool_text(is_anagram(a, b)), "bool"@)),
        _ => invalid_params(),
    }
}

pub(crate) fn invalid_params_error() -> (r: Result<(String, String), String>)
    ensures
        leaf_view(r) == invalid_params(),
{
    Err("Invalid params".to_owned())
}

/// The `i`-th argument, when the parameters are an array that long.
pub fn get_arg(params: &JsonValue, i: usize) -> (r: Option<&JsonValue>)
    ensures
        r is Some <==> arg(*params, i as int) is Some,
        r is Some ==> *r->Some_0 == arg(*params, i as int)->Some_0,
{
    match params {
        JsonValue::Array(a) => if i < a.len() { Some(&a[i]) } else { None },
        _ => None,
    }
}

pub fn get_arg_str(params: &JsonValue, i: usize) -> (r: Option<&String>)
    ensures
        r is Some <==> arg_str(*params, i as int) is Some,
        r is Some ==> r->Some_0@ == arg_str(*params, i as int)->Some_0,
{
    match get_arg(params, i) {
        Some(JsonValue::Str(s)) => Some(s),
        _ => None,
    }
}

pub fn get_arg_number(params: &JsonValue, i: usize) -> (r: Option<JsonNumber>)
    ensures
        r == arg_number(*params, i as int),
{
    match get_arg(params, i) {
        Some(JsonValue::Number(n)) => Some(*n),
        _ => None,
    }
}

/// The characters of `s`, one element each.
pub fn chars_of(s: &str) -> (r: Vec<char>)
    ensures
        r@ == s@,
{
    let n = s.unicode_len();
    let mut r: Vec<char> = Vec::new();
    let mut i: usize = 0;
    while i < n
        invariant
            n == s@.len(),
            i <= n,
            r@ == s@.subrange(0, i as int),
        decreases n - i,
    {
        r.push(s.get_char(i));
        i = i + 1;
        assert(r@ =~= s@.subrange(0, i as int));
    }
    assert(r@ =~= s@);
    r
}

/// The characters of `s` in reverse order.
pub fn reversed(s: &str) -> (r: String)
    ensures
        r@ == s@.reverse(),
{
    let n = s.unicode_len();
    let mut r = String::new();
    let mut i: usize = n;
    while i > 0
        invariant
            n == s@.len(),
            i <= n,
            r@ == s@.subrange(i as int, n as int).reverse(),
        decreases i,
    {
        i = i - 1;
        let c = s.get_char(i);
        push_char(&mut r, c);
        assert(r@ =~= s@.subrange(i as int, n as int).reverse());
    }
    assert(s@.subrange(0, n as int) =~= s@);
    r
}

/// Leaf method `reverse`.
pub fn rpc_reverse(params: &JsonValue) -> (r: Result<(String, String), String>)
    ensures
        leaf_view(r) == reverse_spec(*params),
{
    match get_arg_str(params, 0) {
        Some(s) => Ok((reversed(s.as_str()), "string".to_owned())),
        None => invalid_params_error(),
    }
}

/// How many times `c` occurs in `v`.
pub fn count_of(v: &Vec<char>, c: char) -> (r: usize)
    ensures
        r == v@.to_multiset().count(c),
{
    let mut r: usize = 0;
    let mut i: usize = 0;
    while i < v.len()
        invariant
            i <= v.len(),
            r == v@.subrange(0, i as int).to_multiset().count(c),
            r <= i,
        decreases v.len() - i,
    {
        assert(v@.subrange(0, i + 1) =~= v@.subrange(0, i as int).push(v@[i as int]));
        if v[i] == c {
            r = r + 1;
        }
        i = i + 1;
    }
    assert(v@.subrange(0, v.len() as int) =~= v@);
    r
}

/// Whether every character of `a` occurs as often in `a` as in `b`.
fn counts_agree(a: &Vec<char>, b: &Vec<char>) -> (r: bool)
    ensures
        r == (forall|k: int|
            0 <= k < a@.len() ==> a@.to_multiset().count(#[trigger] a@[k])
                == b@.to_multiset().count(a@[k])),
{
    let mut i: usize = 0;
    while i < a.len()
        invariant
            i <= a.len(),
            forall|k: int|
                0 <= k < i ==> a@.to_multiset().count(#[trigger] a@[k]) == b@.to_multiset().count(
                    a@[k],
                ),
        decreases a.len() - i,
    {
        if count_of(a, a[i]) != count_of(b, a[i]) {
            return false;
        }
        i = i + 1;
    }
    true
}

/// Whether `a` and `b` hold the same characters the same number of times.
pub fn anagram(a: &str, b: &str) -> (r: bool)
    ensures
        r == is_anagram(a@, b@),
{
    let va = chars_of(a);
    let vb = chars_of(b);
    let r = counts_agree(&va, &vb) && counts_agree(&vb, &va);
    proof {
        let (ma, mb) = (a@.to_multiset(), b@.to_multiset());
        if r {
            assert forall|c: char| ma.count(c) == mb.count(c) by {
                if a@.contains(c) {
                    let k = choose|k: int| 0 <= k < a@.len() && a@[k] == c;
                    assert(va@[k] == c);
                } else if b@.contains(c) {
                    let k = choose|k: int| 0 <= k < b@.len() && b@[k] == c;
                    assert(vb@[k] == c);
                }
            }
            assert(ma =~= mb);
        }
    }
    r
}

/// Leaf method `valid_anagram`.
pub fn rpc_valid_anagram(params: &JsonValue) -> (r: Result<(String, String), String>)
    ensures
        leaf_view(r) == valid_anagram_spec(*params),
{
    match (get_arg_str(params, 0), get_arg_str(params, 1)) {
        (Some(a), Some(b)) => {
            let text = if anagram(a.as_str(), b.as_str()) {
                "true".to_owned()
            } else {
                "false".to_owned()
            };
            Ok((text, "bool".to_owned()))
        },
        _ => invalid_params_error(),
    }
}

/// The characters of a JSON string value.
pub open spec fn str_of(v: JsonValue) -> Seq<char> {
    match v {
        JsonValue::Str(s) => s@,
        _ => Seq::empty(),
    }
}

/// The first argument, when it is an array of strings.
pub open spec fn arg_strings(params: JsonValue) -> Option<Seq<Seq<char>>> {
    match arg(params, 0) {
        Some(JsonValue::Array(a)) => if forall|k: int| 0 <= k < a@.len() ==> (#[trigger] a@[k]) is Str {
            Some(a@.map_values(|v: JsonValue| str_of(v)))
        } else {
            None
        },
        _ => None,
    }
}

/// `sort`: the strings of the first argument in lexicographic order, as the text
/// of a JSON array.
pub open spec fn sort_spec(params: JsonValue) -> LeafView {
    match arg_strings(params) {
        Some(items) => Ok((string_array_text(sorted_of(items)), "string"@)),
        None => invalid_params(),
    }
}

/// Leaf method `sort`.
pub fn rpc_sort(params: &JsonValue) -> (r: Result<(String, String), String>)
    ensures
        leaf_view(r) == sort_spec(*params),
{
    let a = match get_arg(params, 0) {
        Some(JsonValue::Array(a)) => a,
        _ => {
            return invalid_params_error();
        },
    };
    let mut strings: Vec<String> = Vec::new();
    let mut i: usize = 0;
    while i < a.len()
        invariant
            arg(*params, 0) == Some(JsonValue::Array(*a)),
            i <= a.len(),
            forall|k: int| 0 <= k < i ==> (#[trigger] a@[k]) is Str,
            views(strings@) == a@.subrange(0, i as int).map_values(|v: JsonValue| str_of(v)),
        decreases a.len() - i,
    {
        let ghost before = strings@;
        match &a[i] {
            JsonValue::Str(s) => {
                strings.push(s.clone());
                assert(views(strings@) =~= views(before).push(str_of(a@[i as int])));
            },
            _ => {
                return invalid_params_error();
            },
        }
        assert(views(strings@) =~= a@.subrange(0, i + 1).map_values(|v: JsonValue| str_of(v)));
        i = i + 1;
    }
    assert(a@.subrange(0, a.len() as int) =~= a@);
    let sorted = sorted_strings(&strings);
    Ok((string_array(&sorted), "string".to_owned()))
}

/// The argument of `floor`: its first positional argument, a number.
pub fn floor_arg(params: &JsonValue) -> (r: Result<JsonNumber, String>)
    ensures
        match arg_number(*params, 0) {
            Some(x) => r == Ok::<JsonNumber, String>(x),
            None => r is Err && r->Err_0@ == "Invalid params"@,
        },
{
    match get_arg_number(params, 0) {
        Some(x) => Ok(x),
        None => Err("Invalid params".to_owned()),
    }
}

/// The arguments of `nroot`: the degree `n` and the radicand `x`, both numbers.
pub fn nroot_args(params: &JsonValue) -> (r: Result<(JsonNumber, JsonNumber), String>)
    ensures
        match (arg_number(*params, 0), arg_number(*params, 1)) {
            (Some(n), Some(x)) => r == Ok::<(JsonNumber, JsonNumber), String>((n, x)),
            _ => r is Err && r->Err_0@ == "Invalid params"@,
        },
{
    match (get_arg_number(params, 0), get_arg_number(params, 1)) {
        (Some(n), Some(x)) => Ok((n, x)),
        _ => Err("Invalid params".to_owned()),
    }
}

} // verus!
