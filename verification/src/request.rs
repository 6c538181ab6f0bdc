//! A request to the doneyet API, as the commands compose it: the method, the
//! path below the API base, the credential it needs, the JSON body and the
//! handoff token header some calls carry.
use vstd::prelude::*;

use crate::client::Auth;
use crate::json::{
    json_bool, json_clone, json_empty_object, json_insert, json_int, json_kind, json_kind_of,
    json_member_of, json_string, json_text_of, JsonKind, JsonShape,
};
use crate::text::int_decimal;

verus! {

/// The HTTP methods the CLI uses.
#[derive(Debug, Clone, Copy, PartialEq, Eq, Structural)]
pub enum Method {
    Get,
    Post,
    Patch,
    Delete,
}

/// One value of a JSON body field.
#[derive(Debug)]
pub enum FieldValue {
    /// A JSON string.
    Text(String),
    /// A JSON integer.
    Int(i64),
    /// A JSON boolean.
    Flag(bool),
    /// A JSON value given by the user and parsed as it stands.
    Json(serde_json::Value),
}

/// The view of a [`FieldValue`].
pub enum FieldView {
    Text(Seq<char>),
    Int(i64),
    Flag(bool),
    Json(serde_json::Value),
}

impl View for FieldValue {
    type V = FieldView;

    open spec fn view(&self) -> FieldView {
        match self {
            FieldValue::Text(s) => FieldView::Text(s@),
            FieldValue::Int(i) => FieldView::Int(*i),
            FieldValue::Flag(b) => FieldView::Flag(*b),
            FieldValue::Json(v) => FieldView::Json(*v),
        }
    }
}

/// One member of a JSON object body.
#[derive(Debug)]
pub struct Field {
    pub key: String,
    pub value: FieldValue,
}

impl View for Field {
    type V = (Seq<char>, FieldView);

    open spec fn view(&self) -> (Seq<char>, FieldView) {
        (self.key@, self.value@)
    }
}

/// A JSON object body: the members of `base` (an object given by the user),
/// if any, with `fields` set on top of them in order.
#[derive(Debug)]
pub struct Body {
    pub base: Option<serde_json::Value>,
    pub fields: Vec<Field>,
}

/// The view of a [`Body`].
pub struct BodyView {
    pub base: Option<serde_json::Value>,
    pub fields: Seq<(Seq<char>, FieldView)>,
}

/// The views of a sequence of fields.
pub open spec fn fields_view(fields: Seq<Field>) -> Seq<(Seq<char>, FieldView)> {
    fields.map_values(|f: Field| f@)
}

impl View for Body {
    type V = BodyView;

    open spec fn view(&self) -> BodyView {
        BodyView { base: self.base, fields: fields_view(self.fields@) }
    }
}

/// A request the CLI sends.
#[derive(Debug)]
pub struct Request {
    pub method: Method,
    /// Path below the API base (or below the server root for `/api/...`).
    pub path: String,
    pub auth: Auth,
    /// JSON body; `None` sends no body and no `Content-Type`.
    pub body: Option<Body>,
    /// Value of the `X-Handoff-Token` header, when the request carries one.
    pub handoff_token: Option<String>,
}

/// The view of a [`Request`].
pub struct RequestView {
    pub method: Method,
    pub path: Seq<char>,
    pub auth: Auth,
    pub body: Option<BodyView>,
    pub handoff_token: Option<Seq<char>>,
}

impl View for Request {
    type V = RequestView;

    open spec fn view(&self) -> RequestView {
        RequestView {
            method: self.method,
            path: self.path@,
            auth: self.auth,
            body: match self.body {
                Some(b) => Some(b@),
                None => None,
            },
            handoff_token: self.handoff_token.deep_view(),
        }
    }
}

/// A request without body or extra header.
pub open spec fn plain_request(method: Method, path: Seq<char>, auth: Auth) -> RequestView {
    RequestView { method, path, auth, body: None, handoff_token: None }
}

/// A request with a JSON body and no extra header.
pub open spec fn body_request(
    method: Method,
    path: Seq<char>,
    auth: Auth,
    base: Option<serde_json::Value>,
    fields: Seq<(Seq<char>, FieldView)>,
) -> RequestView {
    RequestView {
        method,
        path,
        auth,
        body: Some(BodyView { base, fields }),
        handoff_token: None,
    }
}

/// The field `key: value` when `value` is set, nothing otherwise.
pub open spec fn opt_text_field(key: Seq<char>, value: Option<String>) -> Seq<
    (Seq<char>, FieldView),
> {
    match value {
        Some(v) => seq![(key, FieldView::Text(v@))],
        None => seq![],
    }
}

/// The field `key: value` when `value` is set, nothing otherwise.
pub open spec fn opt_int_field(key: Seq<char>, value: Option<i64>) -> Seq<
    (Seq<char>, FieldView),
> {
    match value {
        Some(v) => seq![(key, FieldView::Int(v))],
        None => seq![],
    }
}

/// The field `key: value` when `value` is set, nothing otherwise.
pub open spec fn opt_json_field(key: Seq<char>, value: Option<serde_json::Value>) -> Seq<
    (Seq<char>, FieldView),
> {
    match value {
        Some(v) => seq![(key, FieldView::Json(v))],
        None => seq![],
    }
}

/// A text field.
pub fn text_field(key: &str, value: String) -> (res: Field)
    ensures
        res@ == (key@, FieldView::Text(value@)),
{
    Field { key: String::from_str(key), value: FieldValue::Text(value) }
}

/// Appends `f` to `fields`.
pub fn push_field(fields: &mut Vec<Field>, f: Field)
    ensures
        fields_view(final(fields)@) == fields_view(old(fields)@).push(f@),
{
    fields.push(f);
    assert(fields_view(fields@) =~= fields_view(old(fields)@).push(f@));
}

/// Appends `key: value` to `fields` when `value` is set.
pub fn push_opt_text(fields: &mut Vec<Field>, key: &str, value: Option<String>)
    ensures
        fields_view(final(fields)@) == fields_view(old(fields)@) + opt_text_field(key@, value),
{
    match value {
        Some(v) => {
            push_field(fields, text_field(key, v));
            assert(fields_view(fields@) =~= fields_view(old(fields)@) + opt_text_field(key@, value));
        },
        None => {
            assert(fields_view(fields@) =~= fields_view(old(fields)@) + opt_text_field(key@, value));
        },
    }
}

/// Appends `key: value` to `fields` when `value` is set.
pub fn push_opt_int(fields: &mut Vec<Field>, key: &str, value: Option<i64>)
    ensures
        fields_view(final(fields)@) == fields_view(old(fields)@) + opt_int_field(key@, value),
{
    match value {
        Some(v) => {
            push_field(fields, Field { key: String::from_str(key), value: FieldValue::Int(v) });
            assert(fields_view(fields@) =~= fields_view(old(fields)@) + opt_int_field(key@, value));
        },
        None => {
            assert(fields_view(fields@) =~= fields_view(old(fields)@) + opt_int_field(key@, value));
        },
    }
}

/// Appends `key: value` to `fields` when `value` is set.
pub fn push_opt_json(fields: &mut Vec<Field>, key: &str, value: Option<serde_json::Value>)
    ensures
        fields_view(final(fields)@) == fields_view(old(fields)@) + opt_json_field(key@, value),
{
    match value {
        Some(v) => {
            push_field(fields, Field { key: String::from_str(key), value: FieldValue::Json(v) });
            assert(fields_view(fields@) =~= fields_view(old(fields)@) + opt_json_field(key@, value));
        },
        None => {
            assert(fields_view(fields@) =~= fields_view(old(fields)@) + opt_json_field(key@, value));
        },
    }
}

/// A request without body or extra header.
pub fn simple_request(method: Method, path: String, auth: Auth) -> (res: Request)
    ensures
        res@ == plain_request(method, path@, auth),
{
    Request { method, path, auth, body: None, handoff_token: None }
}

/// A request with a JSON body and no extra header.
pub fn json_request(
    method: Method,
    path: String,
    auth: Auth,
    base: Option<serde_json::Value>,
    fields: Vec<Field>,
) -> (res: Request)
    ensures
        res@ == body_request(method, path@, auth, base, fields_view(fields@)),
{
    Request { method, path, auth, body: Some(Body { base, fields }), handoff_token: None }
}

// ---------------------------------------------------------------------------
// The JSON object a body stands for
// ---------------------------------------------------------------------------

/// `v` is the JSON form of the field value `f`: a string with its text, a
/// number written as its decimal, a boolean, or the user's value itself.
pub open spec fn is_field_json(v: serde_json::Value, f: FieldView) -> bool {
    match f {
        FieldView::Text(s) => json_kind_of(v) == JsonShape::Str(s),
        FieldView::Int(i) => json_kind_of(v) is Number && json_text_of(v) == int_decimal(i as int),
        FieldView::Flag(b) => json_kind_of(v) == JsonShape::Bool(b),
        FieldView::Json(j) => v == j,
    }
}

/// The value of the last field named `key`, if any field has that name.
pub open spec fn last_field(fields: Seq<(Seq<char>, FieldView)>, key: Seq<char>) -> Option<
    FieldView,
>
    decreases fields.len(),
{
    if fields.len() == 0 {
        None
    } else if fields.last().0 == key {
        Some(fields.last().1)
    } else {
        last_field(fields.drop_last(), key)
    }
}

/// The member `key` of the base object (a base that is not an object
/// contributes nothing).
pub open spec fn base_member(base: Option<serde_json::Value>, key: Seq<char>) -> Option<
    serde_json::Value,
> {
    match base {
        Some(b) => if json_kind_of(b) is Object {
            json_member_of(b, key)
        } else {
            None
        },
        None => None,
    }
}

/// The value a text flag sends: its text, when it is set.
pub open spec fn text_opt(v: Option<String>) -> Option<FieldView> {
    match v {
        Some(s) => Some(FieldView::Text(s@)),
        None => None,
    }
}

/// The value a number flag sends: the number, when it is set.
pub open spec fn int_opt(v: Option<i64>) -> Option<FieldView> {
    match v {
        Some(n) => Some(FieldView::Int(n)),
        None => None,
    }
}

/// The value a JSON flag sends: the value, when it is set.
pub open spec fn json_opt(v: Option<serde_json::Value>) -> Option<FieldView> {
    match v {
        Some(j) => Some(FieldView::Json(j)),
        None => None,
    }
}

/// In `s + t`, the last field named `k` is the last one of `t`, if `t` has
/// one, else the last one of `s`.
pub proof fn lemma_last_field_concat(
    s: Seq<(Seq<char>, FieldView)>,
    t: Seq<(Seq<char>, FieldView)>,
    k: Seq<char>,
)
    ensures
        last_field(s + t, k) == match last_field(t, k) {
            Some(f) => Some(f),
            None => last_field(s, k),
        },
    decreases t.len(),
{
    if t.len() == 0 {
        assert(s + t =~= s);
    } else {
        assert((s + t).drop_last() =~= s + t.drop_last());
        assert((s + t).last() == t.last());
        lemma_last_field_concat(s, t.drop_last(), k);
    }
}

/// A single field is the last field of its own name, and of no other.
pub proof fn lemma_last_field_one(key: Seq<char>, f: FieldView, k: Seq<char>)
    ensures
        last_field(seq![(key, f)], k) == if k == key {
            Some(f)
        } else {
            None::<FieldView>
        },
{
    let one = seq![(key, f)];
    assert(one.drop_last() =~= Seq::<(Seq<char>, FieldView)>::empty());
    assert(last_field(one.drop_last(), k) is None);
    assert(one.last() == (key, f));
}

/// What an optional text field contributes under each name.
pub proof fn lemma_last_field_opt_text(key: Seq<char>, v: Option<String>, k: Seq<char>)
    ensures
        last_field(opt_text_field(key, v), k) == if k == key {
            text_opt(v)
        } else {
            None
        },
{
    match v {
        Some(s) => lemma_last_field_one(key, FieldView::Text(s@), k),
        None => {},
    }
}

/// What an optional number field contributes under each name.
pub proof fn lemma_last_field_opt_int(key: Seq<char>, v: Option<i64>, k: Seq<char>)
    ensures
        last_field(opt_int_field(key, v), k) == if k == key {
            int_opt(v)
        } else {
            None
        },
{
    match v {
        Some(n) => lemma_last_field_one(key, FieldView::Int(n), k),
        None => {},
    }
}

/// What an optional JSON field contributes under each name.
pub proof fn lemma_last_field_opt_json(key: Seq<char>, v: Option<serde_json::Value>, k: Seq<char>)
    ensures
        last_field(opt_json_field(key, v), k) == if k == key {
            json_opt(v)
        } else {
            None
        },
{
    match v {
        Some(j) => lemma_last_field_one(key, FieldView::Json(j), k),
        None => {},
    }
}

/// `v` is the JSON object of the body `b`: the members of the base object,
/// with each field set over them in order (a later field of the same name
/// wins).
pub open spec fn is_body_json(v: serde_json::Value, b: BodyView) -> bool {
    &&& json_kind_of(v) is Object
    &&& forall|k: Seq<char>|
        match #[trigger] last_field(b.fields, k) {
            Some(f) => json_member_of(v, k) matches Some(m) && is_field_json(m, f),
            None => json_member_of(v, k) == base_member(b.base, k),
        }
}

/// The JSON form of one field value.
pub fn field_json(f: &FieldValue) -> (res: serde_json::Value)
    ensures
        is_field_json(res, f@),
{
    match f {
        FieldValue::Text(s) => json_string(s.clone()),
        FieldValue::Int(i) => json_int(*i),
        FieldValue::Flag(b) => json_bool(*b),
        FieldValue::Json(j) => json_clone(j),
    }
}

/// The JSON object a request body stands for: the base object (if the body
/// has one) with every field set over it, in order.
pub fn body_json(body: &Body) -> (res: serde_json::Value)
    ensures
        is_body_json(res, body@),
{
    let mut obj = match &body.base {
        Some(b) => match json_kind(b) {
            JsonKind::Object => json_clone(b),
            _ => json_empty_object(),
        },
        None => json_empty_object(),
    };
    let ghost fields = fields_view(body.fields@);
    assert forall|k: Seq<char>| #[trigger] json_member_of(obj, k) == base_member(body.base, k) by {}
    let mut i: usize = 0;
    while i < body.fields.len()
        invariant
            i <= body.fields@.len(),
            fields == fields_view(body.fields@),
            json_kind_of(obj) is Object,
            forall|k: Seq<char>|
                match #[trigger] last_field(fields.take(i as int), k) {
                    Some(f) => json_member_of(obj, k) matches Some(m) && is_field_json(m, f),
                    None => json_member_of(obj, k) == base_member(body.base, k),
                },
        decreases body.fields@.len() - i,
    {
        let f = &body.fields[i];
        let v = field_json(&f.value);
        let ghost before = obj;
        json_insert(&mut obj, f.key.as_str(), v);
        proof {
            let prefix = fields.take(i + 1);
            assert(prefix.drop_last() =~= fields.take(i as int));
            assert(prefix.last() == f@);
            assert forall|k: Seq<char>|
                match #[trigger] last_field(prefix, k) {
                    Some(g) => json_member_of(obj, k) matches Some(m) && is_field_json(m, g),
                    None => json_member_of(obj, k) == base_member(body.base, k),
                } by {
                if k != f.key@ {
                    assert(last_field(prefix, k) == last_field(fields.take(i as int), k));
                    assert(json_member_of(obj, k) == json_member_of(before, k));
                }
            }
        }
        i = i + 1;
    }
    assert(fields.take(i as int) =~= fields);
    obj
}

} // verus!
