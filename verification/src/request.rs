//! What the library asks of the Arena REST API: a method, a path under the base URL,
//! query parameters and an optional JSON object body.

use vstd::prelude::*;

use crate::text::{decimal_int, format_i64, strings_of};

verus! {

/// An HTTP method.
#[derive(Clone, Copy, Debug, PartialEq, Eq, Structural)]
pub enum HttpMethod {
    Get,
    Post,
    Put,
    Delete,
}

/// A value of a field in a request body.
#[derive(Clone, Debug, PartialEq, Eq)]
pub enum BodyValue {
    /// A JSON string.
    Str(String),
    /// A JSON integer.
    Int(i64),
    /// A JSON boolean.
    Bool(bool),
    /// A JSON value, held as its JSON text.
    Raw(String),
    /// An object `{"guid": ..}`.
    GuidRef(String),
    /// An object `{"type": ..}`.
    TypeRef(String),
    /// A JSON array, each element held as its JSON text.
    RawArray(Vec<String>),
}

/// The mathematical value of a [`BodyValue`].
pub enum BodyValueView {
    Str(Seq<char>),
    Int(int),
    Bool(bool),
    Raw(Seq<char>),
    GuidRef(Seq<char>),
    TypeRef(Seq<char>),
    RawArray(Seq<Seq<char>>),
}


impl View for BodyValue {
    type V = BodyValueView;

    open spec fn view(&self) -> BodyValueView {
        match self {
            BodyValue::Str(s) => BodyValueView::Str(s@),
            BodyValue::Int(i) => BodyValueView::Int(*i as int),
            BodyValue::Bool(b) => BodyValueView::Bool(*b),
            BodyValue::Raw(s) => BodyValueView::Raw(s@),
            BodyValue::GuidRef(s) => BodyValueView::GuidRef(s@),
            BodyValue::TypeRef(s) => BodyValueView::TypeRef(s@),
            BodyValue::RawArray(v) => BodyValueView::RawArray(strings_of(v@)),
        }
    }
}

/// A JSON object body: its fields, in the order they were set.
#[derive(Clone, Debug, PartialEq, Eq)]
pub struct RequestBody {
    pub fields: Vec<(String, BodyValue)>,
}

pub type FieldsView = Seq<(Seq<char>, BodyValueView)>;

impl View for RequestBody {
    type V = FieldsView;

    open spec fn view(&self) -> FieldsView {
        self.fields@.map_values(|f: (String, BodyValue)| (f.0@, f.1@))
    }
}

pub type QueryView = Seq<(Seq<char>, Seq<char>)>;

pub open spec fn query_view(q: Seq<(String, String)>) -> QueryView {
    q.map_values(|p: (String, String)| (p.0@, p.1@))
}

/// A request of the Arena REST API, relative to the session's base URL.
#[derive(Clone, Debug, PartialEq, Eq)]
pub struct ApiRequest {
    pub method: HttpMethod,
    pub path: String,
    pub query: Vec<(String, String)>,
    pub body: Option<RequestBody>,
}

/// The mathematical value of an [`ApiRequest`].
pub struct ApiRequestView {
    pub method: HttpMethod,
    pub path: Seq<char>,
    pub query: QueryView,
    pub body: Option<FieldsView>,
}

impl View for ApiRequest {
    type V = ApiRequestView;

    open spec fn view(&self) -> ApiRequestView {
        ApiRequestView {
            method: self.method,
            path: self.path@,
            query: query_view(self.query@),
            body: match self.body {
                Some(b) => Some(b@),
                None => None,
            },
        }
    }
}

pub open spec fn opt_view(o: Option<String>) -> Option<Seq<char>> {
    match o {
        Some(s) => Some(s@),
        None => None,
    }
}

/// The query pair `(key, value)` when the value is given, and nothing otherwise.
pub open spec fn opt_param(key: Seq<char>, value: Option<Seq<char>>) -> QueryView {
    match value {
        Some(v) => seq![(key, v)],
        None => seq![],
    }
}

/// The query pair `(key, decimal value)` when the value is given, and nothing otherwise.
pub open spec fn opt_int_param(key: Seq<char>, value: Option<i64>) -> QueryView {
    match value {
        Some(v) => seq![(key, decimal_int(v as int))],
        None => seq![],
    }
}

/// An owned copy of `s`.
pub fn owned(s: &str) -> (res: String)
    ensures
        res@ == s@,
{
    s.to_string()
}

/// `a` followed by `b`.
pub fn concat2(a: &str, b: &str) -> (res: String)
    ensures
        res@ == a@ + b@,
{
    let mut res = owned(a);
    res.append(b);
    res
}

/// `a`, `b` and `c`, one after the other.
pub fn concat3(a: &str, b: &str, c: &str) -> (res: String)
    ensures
        res@ == a@ + b@ + c@,
{
    let mut res = owned(a);
    res.append(b);
    res.append(c);
    res
}

/// `a` to `d`, one after the other.
pub fn concat4(a: &str, b: &str, c: &str, d: &str) -> (res: String)
    ensures
        res@ == a@ + b@ + c@ + d@,
{
    let mut res = owned(a);
    res.append(b);
    res.append(c);
    res.append(d);
    res
}

/// `a` to `e`, one after the other.
pub fn concat5(a: &str, b: &str, c: &str, d: &str, e: &str) -> (res: String)
    ensures
        res@ == a@ + b@ + c@ + d@ + e@,
{
    let mut res = owned(a);
    res.append(b);
    res.append(c);
    res.append(d);
    res.append(e);
    res
}

/// Appends `(key, value)` to the query when the value is given.
pub fn push_param(query: &mut Vec<(String, String)>, key: &str, value: &Option<String>)
    ensures
        query_view(final(query)@) == query_view(old(query)@) + opt_param(key@, opt_view(*value)),
{
    let ghost before = query@;
    match value {
        Some(v) => {
            query.push((owned(key), v.clone()));
            assert(query_view(query@) =~= query_view(before) + opt_param(key@, opt_view(*value)));
        },
        None => {
            assert(query_view(query@) =~= query_view(before) + opt_param(key@, opt_view(*value)));
        },
    }
}

/// Appends `(key, decimal value)` to the query when the value is given.
pub fn push_int_param(query: &mut Vec<(String, String)>, key: &str, value: Option<i64>)
    ensures
        query_view(final(query)@) == query_view(old(query)@) + opt_int_param(key@, value),
{
    let ghost before = query@;
    match value {
        Some(v) => {
            query.push((owned(key), format_i64(v)));
            assert(query_view(query@) =~= query_view(before) + opt_int_param(key@, value));
        },
        None => {
            assert(query_view(query@) =~= query_view(before) + opt_int_param(key@, value));
        },
    }
}

/// The body field `(key, value)` when the value is given, and nothing otherwise.
pub open spec fn opt_field(key: Seq<char>, value: Option<BodyValueView>) -> FieldsView {
    match value {
        Some(v) => seq![(key, v)],
        None => seq![],
    }
}

pub open spec fn opt_str(o: Option<String>) -> Option<BodyValueView> {
    match o {
        Some(s) => Some(BodyValueView::Str(s@)),
        None => None,
    }
}

pub open spec fn opt_guid(o: Option<String>) -> Option<BodyValueView> {
    match o {
        Some(s) => Some(BodyValueView::GuidRef(s@)),
        None => None,
    }
}

pub open spec fn opt_raw(o: Option<String>) -> Option<BodyValueView> {
    match o {
        Some(s) => Some(BodyValueView::Raw(s@)),
        None => None,
    }
}

pub open spec fn opt_bool(o: Option<bool>) -> Option<BodyValueView> {
    match o {
        Some(b) => Some(BodyValueView::Bool(b)),
        None => None,
    }
}

/// Sets the field `key` of the body to `{"guid": value}` when the value is given.
pub fn push_opt_guid(body: &mut RequestBody, key: &str, value: &Option<String>)
    ensures
        final(body)@ == old(body)@ + opt_field(key@, opt_guid(*value)),
{
    let ghost before = body@;
    match value {
        Some(v) => {
            push_field(body, key, BodyValue::GuidRef(v.clone()));
            assert(body@ =~= before + opt_field(key@, opt_guid(*value)));
        },
        None => {
            assert(body@ =~= before + opt_field(key@, opt_guid(*value)));
        },
    }
}

/// Sets the field `key` of the body to the JSON text `value` when it is given.
pub fn push_opt_raw(body: &mut RequestBody, key: &str, value: &Option<String>)
    ensures
        final(body)@ == old(body)@ + opt_field(key@, opt_raw(*value)),
{
    let ghost before = body@;
    match value {
        Some(v) => {
            push_field(body, key, BodyValue::Raw(v.clone()));
            assert(body@ =~= before + opt_field(key@, opt_raw(*value)));
        },
        None => {
            assert(body@ =~= before + opt_field(key@, opt_raw(*value)));
        },
    }
}

/// Sets the field `key` of the body to the boolean `value` when it is given.
pub fn push_opt_bool(body: &mut RequestBody, key: &str, value: Option<bool>)
    ensures
        final(body)@ == old(body)@ + opt_field(key@, opt_bool(value)),
{
    let ghost before = body@;
    match value {
        Some(v) => {
            push_field(body, key, BodyValue::Bool(v));
            assert(body@ =~= before + opt_field(key@, opt_bool(value)));
        },
        None => {
            assert(body@ =~= before + opt_field(key@, opt_bool(value)));
        },
    }
}

/// Sets the field `key` of the body to `value`.
pub fn push_field(body: &mut RequestBody, key: &str, value: BodyValue)
    ensures
        final(body)@ == old(body)@.push((key@, value@)),
{
    let ghost before = body@;
    body.fields.push((owned(key), value));
    assert(body@ =~= before.push((key@, value@)));
}

/// Sets the field `key` of the body to the string `value` when it is given.
pub fn push_opt_str(body: &mut RequestBody, key: &str, value: &Option<String>)
    ensures
        final(body)@ == old(body)@ + opt_field(key@, opt_str(*value)),
{
    let ghost before = body@;
    match value {
        Some(v) => {
            push_field(body, key, BodyValue::Str(v.clone()));
            assert(body@ =~= before + opt_field(key@, opt_str(*value)));
        },
        None => {
            assert(body@ =~= before + opt_field(key@, opt_str(*value)));
        },
    }
}

/// An empty JSON object body.
pub fn empty_body() -> (res: RequestBody)
    ensures
        res@ == Seq::<(Seq<char>, BodyValueView)>::empty(),
{
    let res = RequestBody { fields: Vec::new() };
    assert(res@ =~= Seq::<(Seq<char>, BodyValueView)>::empty());
    res
}

/// A request with the given method and path, no query and no body.
pub fn bare_request(method: HttpMethod, path: String) -> (res: ApiRequest)
    ensures
        res@ == (ApiRequestView { method, path: path@, query: seq![], body: None }),
{
    let res = ApiRequest { method, path, query: Vec::new(), body: None };
    assert(res@.query =~= seq![]);
    res
}

/// A request with the given method, path and body, and no query.
pub fn body_request(method: HttpMethod, path: String, body: RequestBody) -> (res: ApiRequest)
    ensures
        res@ == (ApiRequestView { method, path: path@, query: seq![], body: Some(body@) }),
{
    let res = ApiRequest { method, path, query: Vec::new(), body: Some(body) };
    assert(res@.query =~= seq![]);
    res
}

/// A GET request of `path` with the given query.
pub fn query_request(path: String, query: Vec<(String, String)>) -> (res: ApiRequest)
    ensures
        res@ == (ApiRequestView {
            method: HttpMethod::Get,
            path: path@,
            query: query_view(query@),
            body: None,
        }),
{
    ApiRequest { method: HttpMethod::Get, path, query, body: None }
}

} // verus!
