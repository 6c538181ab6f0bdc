//! `dyt notify ...` — notifications and notification channels.
use vstd::prelude::*;

use crate::client::Auth;
use crate::commands::{
    has_query_item, opt_json_flag, opt_json_flag_of, segment_path, CommandError, CommandErrorView,
};
use crate::commands::run::request_result_view;
use crate::request::{
    body_request, fields_view, json_request, opt_int_field, opt_json_field, opt_text_field,
    plain_request, push_field, push_opt_int, push_opt_json, push_opt_text, simple_request,
    text_field, Field, FieldValue, FieldView, Method, Request, RequestView,
};
use crate::json::parsed_json;
use crate::request::{
    int_opt, json_opt, last_field, lemma_last_field_concat, lemma_last_field_one,
    lemma_last_field_opt_int, lemma_last_field_opt_json, lemma_last_field_opt_text, text_opt,
};
use vstd::utf8::encode_utf8;
use crate::text::concat2;
use crate::url::{enc_query, url_encoded};

verus! {

#[derive(Debug)]
pub struct NotifyArgs {
    pub action: NotifyAction,
}

#[derive(Debug)]
pub enum NotifyAction {
    /// Manage notification channels.
    Channel(ChannelArgs),
    /// List notifications (filter by channel / workflow / run / status / event).
    List(ListArgs),
    /// Get one notification by id.
    Get { id: String },
    /// Create a notification.
    Create(CreateArgs),
    /// Update a notification (status / retry_count / mark_delivered / last_error).
    Update(UpdateArgs),
}

#[derive(Debug)]
pub struct ChannelArgs {
    pub action: ChannelAction,
}

#[derive(Debug)]
pub enum ChannelAction {
    List,
    Create(ChannelCreateArgs),
    Delete { id: String },
}

#[derive(Debug, Clone)]
pub struct ChannelCreateArgs {
    pub kind: String,
    pub name: String,
    pub target: String,
    /// Inline JSON object for transport-specific options.
    pub config: Option<String>,
}

#[derive(Debug, Clone)]
pub struct ListArgs {
    pub channel_id: Option<String>,
    pub workflow_slug: Option<String>,
    pub run_id: Option<String>,
    pub status: Option<String>,
    pub event_type: Option<String>,
}

#[derive(Debug, Clone)]
pub struct CreateArgs {
    pub channel_id: Option<String>,
    pub channel_name: Option<String>,
    pub workflow_slug: Option<String>,
    pub run_id: Option<String>,
    pub event_type: String,
    pub severity: String,
    pub title: String,
    pub body: Option<String>,
    /// Inline JSON object for `payload`.
    pub payload: Option<String>,
}

#[derive(Debug, Clone)]
pub struct UpdateArgs {
    pub id: String,
    pub status: Option<String>,
    pub retry_count: Option<i64>,
    pub last_error: Option<String>,
    pub mark_delivered: bool,
}

// ---------------------------------------------------------------------------
// channels
// ---------------------------------------------------------------------------

/// `GET /notifications/channels`.
pub fn channel_list_request() -> (res: Request)
    ensures
        res@ == plain_request(Method::Get, "/notifications/channels"@, Auth::ReadOptional),
{
    simple_request(Method::Get, String::from_str("/notifications/channels"), Auth::ReadOptional)
}

/// The columns of the channel list table.
pub fn channel_list_columns() -> (res: Vec<&'static str>)
    ensures
        res@ == seq!["id", "kind", "name", "target", "created_at"],
{
    vec!["id", "kind", "name", "target", "created_at"]
}

/// `POST /notifications/channels` (admin); refused when `--config` is not JSON.
pub open spec fn channel_create_request_of(a: ChannelCreateArgs) -> Result<
    RequestView,
    CommandErrorView,
> {
    match opt_json_flag_of("--config"@, a.config) {
        Err(e) => Err(e),
        Ok(config) => Ok(
            body_request(
                Method::Post,
                "/notifications/channels"@,
                Auth::Admin,
                None,
                seq![
                    ("kind"@, FieldView::Text(a.kind@)),
                    ("name"@, FieldView::Text(a.name@)),
                    ("target"@, FieldView::Text(a.target@)),
                ] + opt_json_field("config"@, config),
            ),
        ),
    }
}

/// The request that creates a notification channel.
pub fn channel_create_request(a: &ChannelCreateArgs) -> (res: Result<Request, CommandError>)
    ensures
        request_result_view(res) == channel_create_request_of(*a),
{
    let config = match opt_json_flag("--config", &a.config) {
        Ok(c) => c,
        Err(e) => return Err(e),
    };
    let mut fields: Vec<Field> = Vec::new();
    push_field(&mut fields, text_field("kind", a.kind.clone()));
    push_field(&mut fields, text_field("name", a.name.clone()));
    push_field(&mut fields, text_field("target", a.target.clone()));
    push_opt_json(&mut fields, "config", config);
    assert(fields_view(fields@) =~= seq![
        ("kind"@, FieldView::Text(a.kind@)),
        ("name"@, FieldView::Text(a.name@)),
        ("target"@, FieldView::Text(a.target@)),
    ] + opt_json_field("config"@, config));
    Ok(
        json_request(
            Method::Post,
            String::from_str("/notifications/channels"),
            Auth::Admin,
            None,
            fields,
        ),
    )
}

/// `DELETE /notifications/channels/{id}` (admin).
pub fn channel_delete_request(id: &str) -> (res: Request)
    ensures
        res@ == plain_request(
            Method::Delete,
            "/notifications/channels/"@ + url_encoded(id@),
            Auth::Admin,
        ),
{
    let path = segment_path("/notifications/channels/", id, "");
    proof {
        reveal_strlit("");
        assert(path@ =~= "/notifications/channels/"@ + url_encoded(id@));
    }
    simple_request(Method::Delete, path, Auth::Admin)
}

// ---------------------------------------------------------------------------
// notifications
// ---------------------------------------------------------------------------

/// The query item `name=value` when the value is set.
pub open spec fn opt_item(name: Seq<char>, value: Option<String>) -> Seq<Seq<char>> {
    match value {
        Some(v) => seq![name + url_encoded(v@)],
        None => seq![],
    }
}

/// `items` separated by `sep`.
pub open spec fn joined(items: Seq<Seq<char>>, sep: Seq<char>) -> Seq<char>
    decreases items.len(),
{
    if items.len() == 0 {
        seq![]
    } else if items.len() == 1 {
        items[0]
    } else {
        joined(items.drop_last(), sep) + sep + items.last()
    }
}

/// The filters of a notification listing, in order.
pub open spec fn list_items_of(a: ListArgs) -> Seq<Seq<char>> {
    opt_item("channel_id="@, a.channel_id) + opt_item("workflow_slug="@, a.workflow_slug)
        + opt_item("run_id="@, a.run_id) + opt_item("status="@, a.status) + opt_item(
        "event_type="@,
        a.event_type,
    )
}

/// `/notifications`, followed by `?` and the filters joined by `&` when any
/// filter is given.
pub open spec fn list_path_of(a: ListArgs) -> Seq<char> {
    let items = list_items_of(a);
    if items.len() == 0 {
        "/notifications"@
    } else {
        "/notifications"@ + "?"@ + joined(items, "&"@)
    }
}

fn add_item(
    query: &mut String,
    count: usize,
    name: &str,
    value: &Option<String>,
    Ghost(items): Ghost<Seq<Seq<char>>>,
) -> (res: usize)
    requires
        old(query)@ == joined(items, "&"@),
        count == items.len(),
        count < 8,
    ensures
        final(query)@ == joined(items + opt_item(name@, *value), "&"@),
        res == (items + opt_item(name@, *value)).len(),
{
    match value {
        Some(v) => {
            let e = enc_query(v.as_str());
            let item = concat2(name, e.as_str());
            let ghost next = items + opt_item(name@, *value);
            assert(next.drop_last() =~= items);
            assert(next.last() == item@);
            if count > 0 {
                query.append("&");
            } else {
                assert(next =~= seq![item@]);
            }
            query.append(item.as_str());
            count + 1
        },
        None => {
            assert(items + opt_item(name@, *value) =~= items);
            count
        },
    }
}

/// The request that lists notifications.
pub fn list_request(a: &ListArgs) -> (res: Request)
    ensures
        res@ == plain_request(Method::Get, list_path_of(*a), Auth::ReadOptional),
{
    let mut query = String::new();
    let ghost i0: Seq<Seq<char>> = seq![];
    let n = add_item(&mut query, 0, "channel_id=", &a.channel_id, Ghost(i0));
    let ghost i1 = i0 + opt_item("channel_id="@, a.channel_id);
    let n = add_item(&mut query, n, "workflow_slug=", &a.workflow_slug, Ghost(i1));
    let ghost i2 = i1 + opt_item("workflow_slug="@, a.workflow_slug);
    let n = add_item(&mut query, n, "run_id=", &a.run_id, Ghost(i2));
    let ghost i3 = i2 + opt_item("run_id="@, a.run_id);
    let n = add_item(&mut query, n, "status=", &a.status, Ghost(i3));
    let ghost i4 = i3 + opt_item("status="@, a.status);
    let n = add_item(&mut query, n, "event_type=", &a.event_type, Ghost(i4));
    let ghost i5 = i4 + opt_item("event_type="@, a.event_type);
    assert(i5 =~= list_items_of(*a));
    let mut path = String::from_str("/notifications");
    if n > 0 {
        path.append("?");
        path.append(query.as_str());
    }
    simple_request(Method::Get, path, Auth::ReadOptional)
}

/// The columns of the notification list table.
pub fn list_columns() -> (res: Vec<&'static str>)
    ensures
        res@ == seq!["id", "event_type", "severity", "title", "status", "retry_count", "created_at"],
{
    vec!["id", "event_type", "severity", "title", "status", "retry_count", "created_at"]
}

/// `GET /notifications/{id}`.
pub fn get_request(id: &str) -> (res: Request)
    ensures
        res@ == plain_request(
            Method::Get,
            "/notifications/"@ + url_encoded(id@),
            Auth::ReadOptional,
        ),
{
    let path = segment_path("/notifications/", id, "");
    proof {
        reveal_strlit("");
        assert(path@ =~= "/notifications/"@ + url_encoded(id@));
    }
    simple_request(Method::Get, path, Auth::ReadOptional)
}

/// The fields of a new notification.
pub open spec fn create_fields_of(a: CreateArgs, payload: Option<serde_json::Value>) -> Seq<
    (Seq<char>, FieldView),
> {
    seq![
        ("event_type"@, FieldView::Text(a.event_type@)),
        ("severity"@, FieldView::Text(a.severity@)),
        ("title"@, FieldView::Text(a.title@)),
    ] + opt_text_field("channel_id"@, a.channel_id) + opt_text_field(
        "channel_name"@,
        a.channel_name,
    ) + opt_text_field("workflow_slug"@, a.workflow_slug) + opt_text_field("run_id"@, a.run_id)
        + opt_text_field("body"@, a.body) + opt_json_field("payload"@, payload)
}

/// `POST /notifications` (admin); refused when `--payload` is not JSON.
pub open spec fn create_request_of(a: CreateArgs) -> Result<RequestView, CommandErrorView> {
    match opt_json_flag_of("--payload"@, a.payload) {
        Err(e) => Err(e),
        Ok(payload) => Ok(
            body_request(
                Method::Post,
                "/notifications"@,
                Auth::Admin,
                None,
                create_fields_of(a, payload),
            ),
        ),
    }
}

/// The request that creates a notification.
pub fn create_request(a: &CreateArgs) -> (res: Result<Request, CommandError>)
    ensures
        request_result_view(res) == create_request_of(*a),
{
    let payload = match opt_json_flag("--payload", &a.payload) {
        Ok(p) => p,
        Err(e) => return Err(e),
    };
    let mut fields: Vec<Field> = Vec::new();
    push_field(&mut fields, text_field("event_type", a.event_type.clone()));
    push_field(&mut fields, text_field("severity", a.severity.clone()));
    push_field(&mut fields, text_field("title", a.title.clone()));
    assert(fields_view(fields@) =~= seq![
        ("event_type"@, FieldView::Text(a.event_type@)),
        ("severity"@, FieldView::Text(a.severity@)),
        ("title"@, FieldView::Text(a.title@)),
    ]);
    push_opt_text(&mut fields, "channel_id", a.channel_id.clone());
    push_opt_text(&mut fields, "channel_name", a.channel_name.clone());
    push_opt_text(&mut fields, "workflow_slug", a.workflow_slug.clone());
    push_opt_text(&mut fields, "run_id", a.run_id.clone());
    push_opt_text(&mut fields, "body", a.body.clone());
    push_opt_json(&mut fields, "payload", payload);
    assert(fields_view(fields@) == create_fields_of(*a, payload));
    Ok(
        json_request(
            Method::Post,
            String::from_str("/notifications"),
            Auth::Admin,
            None,
            fields,
        ),
    )
}

/// The field `mark_delivered: true` when the flag is set.
pub open spec fn mark_field(mark: bool) -> Seq<(Seq<char>, FieldView)> {
    if mark {
        seq![("mark_delivered"@, FieldView::Flag(true))]
    } else {
        seq![]
    }
}

/// The fields of a notification update.
pub open spec fn update_fields_of(a: UpdateArgs) -> Seq<(Seq<char>, FieldView)> {
    opt_text_field("status"@, a.status) + opt_int_field("retry_count"@, a.retry_count)
        + opt_text_field("last_error"@, a.last_error) + mark_field(a.mark_delivered)
}

/// `PATCH /notifications/{id}` (admin); refused when no field is given.
pub open spec fn update_request_of(a: UpdateArgs) -> Result<RequestView, CommandErrorView> {
    if update_fields_of(a).len() == 0 {
        Err(CommandErrorView::NoNotificationFields)
    } else {
        Ok(
            body_request(
                Method::Patch,
                "/notifications/"@ + url_encoded(a.id@),
                Auth::Admin,
                None,
                update_fields_of(a),
            ),
        )
    }
}

/// The request that updates a notification.
pub fn update_request(a: &UpdateArgs) -> (res: Result<Request, CommandError>)
    ensures
        request_result_view(res) == update_request_of(*a),
{
    let mut fields: Vec<Field> = Vec::new();
    push_opt_text(&mut fields, "status", a.status.clone());
    push_opt_int(&mut fields, "retry_count", a.retry_count);
    push_opt_text(&mut fields, "last_error", a.last_error.clone());
    if a.mark_delivered {
        push_field(
            &mut fields,
            Field { key: String::from_str("mark_delivered"), value: FieldValue::Flag(true) },
        );
    }
    assert(fields_view(fields@) =~= update_fields_of(*a));
    if fields.len() == 0 {
        return Err(CommandError::NoNotificationFields);
    }
    let path = segment_path("/notifications/", a.id.as_str(), "");
    proof {
        reveal_strlit("");
        assert(path@ =~= "/notifications/"@ + url_encoded(a.id@));
    }
    Ok(json_request(Method::Patch, path, Auth::Admin, None, fields))
}

/// Law: a notification update is refused exactly when none of `--status`,
/// `--retry-count`, `--last-error` and `--mark-delivered` is given. Otherwise
/// it is a `PATCH /notifications/{id}` with the admin token whose body sets
/// every given flag under its own name (`mark_delivered` as `true`) and
/// nothing else.
pub proof fn lemma_notification_update_sends_every_field(a: UpdateArgs)
    ensures
        update_request_of(a) is Err <==> (a.status is None && a.retry_count is None
            && a.last_error is None && !a.mark_delivered),
        update_request_of(a) matches Err(e) ==> e == CommandErrorView::NoNotificationFields,
        update_request_of(a) matches Ok(r) ==> {
            &&& r.method == Method::Patch
            &&& r.path == "/notifications/"@ + url_encoded(a.id@)
            &&& r.auth == Auth::Admin
            &&& r.handoff_token is None
            &&& r.body matches Some(b) && {
                &&& b.base is None
                &&& last_field(b.fields, "status"@) == text_opt(a.status)
                &&& last_field(b.fields, "retry_count"@) == int_opt(a.retry_count)
                &&& last_field(b.fields, "last_error"@) == text_opt(a.last_error)
                &&& last_field(b.fields, "mark_delivered"@) == if a.mark_delivered {
                    Some(FieldView::Flag(true))
                } else {
                    None
                }
                &&& forall|k: Seq<char>|
                    k != "status"@ && k != "retry_count"@ && k != "last_error"@ && k
                        != "mark_delivered"@ ==> #[trigger] last_field(b.fields, k) is None
            }
        },
{
    reveal_strlit("status");
    reveal_strlit("retry_count");
    reveal_strlit("last_error");
    reveal_strlit("mark_delivered");
    // The four names differ in their first character.
    assert("status"@[0] == 's' && "retry_count"@[0] == 'r' && "last_error"@[0] == 'l'
        && "mark_delivered"@[0] == 'm');
    let fs = opt_text_field("status"@, a.status);
    let fr = opt_int_field("retry_count"@, a.retry_count);
    let fl = opt_text_field("last_error"@, a.last_error);
    let fm = mark_field(a.mark_delivered);
    let mark = if a.mark_delivered {
        Some(FieldView::Flag(true))
    } else {
        None
    };
    assert(update_fields_of(a) == fs + fr + fl + fm);
    assert forall|k: Seq<char>|
        #[trigger] last_field(fs + fr + fl + fm, k) == if k == "mark_delivered"@ {
            mark
        } else if k == "last_error"@ {
            text_opt(a.last_error)
        } else if k == "retry_count"@ {
            int_opt(a.retry_count)
        } else if k == "status"@ {
            text_opt(a.status)
        } else {
            None
        } by {
        lemma_last_field_concat(fs + fr + fl, fm, k);
        lemma_last_field_concat(fs + fr, fl, k);
        lemma_last_field_concat(fs, fr, k);
        lemma_last_field_opt_text("status"@, a.status, k);
        lemma_last_field_opt_int("retry_count"@, a.retry_count, k);
        lemma_last_field_opt_text("last_error"@, a.last_error, k);
        lemma_last_field_one("mark_delivered"@, FieldView::Flag(true), k);
    }
    assert(last_field(fs + fr + fl + fm, "status"@) == text_opt(a.status));
    assert(last_field(fs + fr + fl + fm, "retry_count"@) == int_opt(a.retry_count));
    assert(last_field(fs + fr + fl + fm, "last_error"@) == text_opt(a.last_error));
    assert(last_field(fs + fr + fl + fm, "mark_delivered"@) == mark);
}

/// Each item of a `&`-joined list stands in it, at the start or after an `&`.
proof fn lemma_joined_has_item(items: Seq<Seq<char>>, j: int) -> (p: int)
    requires
        0 <= j < items.len(),
    ensures
        0 <= p,
        p + items[j].len() <= joined(items, "&"@).len(),
        joined(items, "&"@).subrange(p, p + items[j].len()) == items[j],
        p == 0 || joined(items, "&"@)[p - 1] == '&',
    decreases items.len(),
{
    reveal_strlit("&");
    let whole = joined(items, "&"@);
    if items.len() == 1 {
        assert(whole.subrange(0, items[0].len() as int) =~= items[0]);
        0
    } else {
        let prev = joined(items.drop_last(), "&"@);
        assert(whole == prev + "&"@ + items.last());
        if j == items.len() - 1 {
            let p: int = prev.len() as int + 1;
            assert(whole.subrange(p, p + items[j].len()) =~= items[j]);
            assert(whole[p - 1] == '&');
            p
        } else {
            let p = lemma_joined_has_item(items.drop_last(), j);
            assert(items.drop_last()[j] == items[j]);
            assert(whole.subrange(p, p + items[j].len()) =~= prev.subrange(p, p + items[j].len()));
            if p > 0 {
                assert(whole[p - 1] == prev[p - 1]);
            }
            p
        }
    }
}

/// A filter that is set stands in the listing's path as `name=value`.
proof fn lemma_filter_in_path(
    a: ListArgs,
    pre: Seq<Seq<char>>,
    name: Seq<char>,
    v: Option<String>,
    post: Seq<Seq<char>>,
)
    requires
        list_items_of(a) == pre + opt_item(name, v) + post,
    ensures
        v matches Some(s) ==> has_query_item(list_path_of(a), name + url_encoded(s@)),
{
    reveal_strlit("/notifications");
    reveal_strlit("?");
    if let Some(s) = v {
        let items = list_items_of(a);
        let item = name + url_encoded(s@);
        let j = pre.len() as int;
        assert(items[j] == item);
        let p = lemma_joined_has_item(items, j);
        let j_text = joined(items, "&"@);
        let path = list_path_of(a);
        assert(path == "/notifications"@ + "?"@ + j_text);
        let q = p + 15;
        assert(path.subrange(q, q + item.len()) =~= j_text.subrange(p, p + item.len()));
        if p == 0 {
            assert(path[q - 1] == '?');
        } else {
            assert(path[q - 1] == j_text[p - 1]);
        }
        assert(has_query_item(path, item));
    }
}

/// Law: a notification listing is unfiltered exactly when no filter is
/// given; otherwise its path is `/notifications?` followed by the query, and
/// every filter that is given stands in it as a query item `name=value`, the
/// value percent-encoded.
pub proof fn lemma_notification_list_sends_every_filter(a: ListArgs)
    ensures
        list_path_of(a) == "/notifications"@ <==> (a.channel_id is None && a.workflow_slug is None
            && a.run_id is None && a.status is None && a.event_type is None),
        !(a.channel_id is None && a.workflow_slug is None && a.run_id is None && a.status is None
            && a.event_type is None) ==> list_path_of(a).subrange(0, 15) == "/notifications?"@,
        a.channel_id matches Some(v) ==> has_query_item(
            list_path_of(a),
            "channel_id="@ + url_encoded(v@),
        ),
        a.workflow_slug matches Some(v) ==> has_query_item(
            list_path_of(a),
            "workflow_slug="@ + url_encoded(v@),
        ),
        a.run_id matches Some(v) ==> has_query_item(list_path_of(a), "run_id="@ + url_encoded(v@)),
        a.status matches Some(v) ==> has_query_item(list_path_of(a), "status="@ + url_encoded(v@)),
        a.event_type matches Some(v) ==> has_query_item(
            list_path_of(a),
            "event_type="@ + url_encoded(v@),
        ),
{
    reveal_strlit("/notifications");
    reveal_strlit("?");
    reveal_strlit("/notifications?");
    let ic = opt_item("channel_id="@, a.channel_id);
    let iw = opt_item("workflow_slug="@, a.workflow_slug);
    let ir = opt_item("run_id="@, a.run_id);
    let is = opt_item("status="@, a.status);
    let ie = opt_item("event_type="@, a.event_type);
    let items = list_items_of(a);
    assert(items == ic + iw + ir + is + ie);
    if items.len() > 0 {
        assert(list_path_of(a).len() > 14);
        assert(list_path_of(a).subrange(0, 15) =~= "/notifications?"@);
    }
    let none: Seq<Seq<char>> = seq![];
    assert(items =~= none + ic + (iw + ir + is + ie));
    lemma_filter_in_path(a, none, "channel_id="@, a.channel_id, iw + ir + is + ie);
    assert(items =~= ic + iw + (ir + is + ie));
    lemma_filter_in_path(a, ic, "workflow_slug="@, a.workflow_slug, ir + is + ie);
    assert(items =~= (ic + iw) + ir + (is + ie));
    lemma_filter_in_path(a, ic + iw, "run_id="@, a.run_id, is + ie);
    assert(items =~= (ic + iw + ir) + is + ie);
    lemma_filter_in_path(a, ic + iw + ir, "status="@, a.status, ie);
    assert(items =~= (ic + iw + ir + is) + ie + none);
    lemma_filter_in_path(a, ic + iw + ir + is, "event_type="@, a.event_type, none);
}

/// Law: creating a channel is refused exactly when `--config` is given and
/// is not JSON (with the parser's explanation). An accepted one is a
/// `POST /notifications/channels` with the admin token whose body sets
/// `kind`, `name`, `target`, and `config` (as the JSON it parses to) when
/// given, and nothing else.
pub proof fn lemma_channel_create_sends_every_field(a: ChannelCreateArgs)
    ensures
        a.config matches Some(c) ==> (parsed_json(encode_utf8(c@)) matches Err(d)
            ==> channel_create_request_of(a) == Err::<RequestView, CommandErrorView>(
            CommandErrorView::InvalidJson { flag: "--config"@, input: c@, detail: d },
        )),
        channel_create_request_of(a) is Ok <==> (a.config matches Some(c) ==> parsed_json(
            encode_utf8(c@),
        ) is Ok),
        channel_create_request_of(a) matches Ok(r) ==> {
            &&& r.method == Method::Post
            &&& r.path == "/notifications/channels"@
            &&& r.auth == Auth::Admin
            &&& r.handoff_token is None
            &&& r.body matches Some(b) && {
                &&& b.base is None
                &&& last_field(b.fields, "kind"@) == Some(FieldView::Text(a.kind@))
                &&& last_field(b.fields, "name"@) == Some(FieldView::Text(a.name@))
                &&& last_field(b.fields, "target"@) == Some(FieldView::Text(a.target@))
                &&& a.config is None ==> last_field(b.fields, "config"@) is None
                &&& a.config matches Some(c) ==> (parsed_json(encode_utf8(c@)) matches Ok(v)
                    && last_field(b.fields, "config"@) == Some(FieldView::Json(v)))
                &&& forall|k: Seq<char>|
                    k != "kind"@ && k != "name"@ && k != "target"@ && k != "config"@
                        ==> #[trigger] last_field(b.fields, k) is None
            }
        },
{
    reveal_strlit("kind");
    reveal_strlit("name");
    reveal_strlit("target");
    reveal_strlit("config");
    // The four names differ in their first character.
    assert("kind"@[0] == 'k' && "name"@[0] == 'n' && "target"@[0] == 't' && "config"@[0] == 'c');
    match opt_json_flag_of("--config"@, a.config) {
        Err(_) => {},
        Ok(config) => {
            let fk = seq![("kind"@, FieldView::Text(a.kind@))];
            let fn_ = seq![("name"@, FieldView::Text(a.name@))];
            let ft = seq![("target"@, FieldView::Text(a.target@))];
            let fc = opt_json_field("config"@, config);
            let fields = seq![
                ("kind"@, FieldView::Text(a.kind@)),
                ("name"@, FieldView::Text(a.name@)),
                ("target"@, FieldView::Text(a.target@)),
            ] + fc;
            assert(fields =~= fk + fn_ + ft + fc);
            assert forall|k: Seq<char>|
                #[trigger] last_field(fields, k) == if k == "config"@ {
                    json_opt(config)
                } else if k == "target"@ {
                    Some(FieldView::Text(a.target@))
                } else if k == "name"@ {
                    Some(FieldView::Text(a.name@))
                } else if k == "kind"@ {
                    Some(FieldView::Text(a.kind@))
                } else {
                    None
                } by {
                lemma_last_field_concat(fk + fn_ + ft, fc, k);
                lemma_last_field_concat(fk + fn_, ft, k);
                lemma_last_field_concat(fk, fn_, k);
                lemma_last_field_one("kind"@, FieldView::Text(a.kind@), k);
                lemma_last_field_one("name"@, FieldView::Text(a.name@), k);
                lemma_last_field_one("target"@, FieldView::Text(a.target@), k);
                lemma_last_field_opt_json("config"@, config, k);
            }
            assert(last_field(fields, "kind"@) == Some(FieldView::Text(a.kind@)));
            assert(last_field(fields, "name"@) == Some(FieldView::Text(a.name@)));
            assert(last_field(fields, "target"@) == Some(FieldView::Text(a.target@)));
            assert(last_field(fields, "config"@) == json_opt(config));
        },
    }
}

/// Law: creating a notification is refused exactly when `--payload` is
/// given and is not JSON (with the parser's explanation). An accepted one is
/// a `POST /notifications` with the admin token whose body sets
/// `event_type`, `severity` and `title`, and every optional flag that is
/// given under its own name (the payload as the JSON it parses to), and
/// nothing else.
pub proof fn lemma_notification_create_sends_every_field(a: CreateArgs)
    ensures
        a.payload matches Some(c) ==> (parsed_json(encode_utf8(c@)) matches Err(d)
            ==> create_request_of(a) == Err::<RequestView, CommandErrorView>(
            CommandErrorView::InvalidJson { flag: "--payload"@, input: c@, detail: d },
        )),
        create_request_of(a) is Ok <==> (a.payload matches Some(c) ==> parsed_json(
            encode_utf8(c@),
        ) is Ok),
        create_request_of(a) matches Ok(r) ==> {
            &&& r.method == Method::Post
            &&& r.path == "/notifications"@
            &&& r.auth == Auth::Admin
            &&& r.handoff_token is None
            &&& r.body matches Some(b) && {
                &&& b.base is None
                &&& last_field(b.fields, "event_type"@) == Some(FieldView::Text(a.event_type@))
                &&& last_field(b.fields, "severity"@) == Some(FieldView::Text(a.severity@))
                &&& last_field(b.fields, "title"@) == Some(FieldView::Text(a.title@))
                &&& last_field(b.fields, "channel_id"@) == text_opt(a.channel_id)
                &&& last_field(b.fields, "channel_name"@) == text_opt(a.channel_name)
                &&& last_field(b.fields, "workflow_slug"@) == text_opt(a.workflow_slug)
                &&& last_field(b.fields, "run_id"@) == text_opt(a.run_id)
                &&& last_field(b.fields, "body"@) == text_opt(a.body)
                &&& a.payload is None ==> last_field(b.fields, "payload"@) is None
                &&& a.payload matches Some(c) ==> (parsed_json(encode_utf8(c@)) matches Ok(v)
                    && last_field(b.fields, "payload"@) == Some(FieldView::Json(v)))
                &&& forall|k: Seq<char>|
                    k != "event_type"@ && k != "severity"@ && k != "title"@ && k != "channel_id"@
                        && k != "channel_name"@ && k != "workflow_slug"@ && k != "run_id"@ && k
                        != "body"@ && k != "payload"@ ==> #[trigger] last_field(b.fields, k) is None
            }
        },
{
    reveal_strlit("event_type");
    reveal_strlit("severity");
    reveal_strlit("title");
    reveal_strlit("channel_id");
    reveal_strlit("channel_name");
    reveal_strlit("workflow_slug");
    reveal_strlit("run_id");
    reveal_strlit("body");
    reveal_strlit("payload");
    // The names differ in their first character, but for the two channel
    // names, which differ in length.
    assert("event_type"@[0] == 'e' && "severity"@[0] == 's' && "title"@[0] == 't'
        && "channel_id"@[0] == 'c' && "workflow_slug"@[0] == 'w' && "run_id"@[0] == 'r'
        && "body"@[0] == 'b' && "payload"@[0] == 'p' && "channel_name"@[0] == 'c');
    assert("channel_id"@.len() == 10 && "channel_name"@.len() == 12);
    match opt_json_flag_of("--payload"@, a.payload) {
        Err(_) => {},
        Ok(payload) => {
            let fe = seq![("event_type"@, FieldView::Text(a.event_type@))];
            let fs = seq![("severity"@, FieldView::Text(a.severity@))];
            let ft = seq![("title"@, FieldView::Text(a.title@))];
            let fci = opt_text_field("channel_id"@, a.channel_id);
            let fcn = opt_text_field("channel_name"@, a.channel_name);
            let fw = opt_text_field("workflow_slug"@, a.workflow_slug);
            let fr = opt_text_field("run_id"@, a.run_id);
            let fb = opt_text_field("body"@, a.body);
            let fp = opt_json_field("payload"@, payload);
            let fields = create_fields_of(a, payload);
            assert(fields =~= fe + fs + ft + fci + fcn + fw + fr + fb + fp);
            assert forall|k: Seq<char>|
                #[trigger] last_field(fields, k) == if k == "payload"@ {
                    json_opt(payload)
                } else if k == "body"@ {
                    text_opt(a.body)
                } else if k == "run_id"@ {
                    text_opt(a.run_id)
                } else if k == "workflow_slug"@ {
                    text_opt(a.workflow_slug)
                } else if k == "channel_name"@ {
                    text_opt(a.channel_name)
                } else if k == "channel_id"@ {
                    text_opt(a.channel_id)
                } else if k == "title"@ {
                    Some(FieldView::Text(a.title@))
                } else if k == "severity"@ {
                    Some(FieldView::Text(a.severity@))
                } else if k == "event_type"@ {
                    Some(FieldView::Text(a.event_type@))
                } else {
                    None
                } by {
                lemma_last_field_concat(fe + fs + ft + fci + fcn + fw + fr + fb, fp, k);
                lemma_last_field_concat(fe + fs + ft + fci + fcn + fw + fr, fb, k);
                lemma_last_field_concat(fe + fs + ft + fci + fcn + fw, fr, k);
                lemma_last_field_concat(fe + fs + ft + fci + fcn, fw, k);
                lemma_last_field_concat(fe + fs + ft + fci, fcn, k);
                lemma_last_field_concat(fe + fs + ft, fci, k);
                lemma_last_field_concat(fe + fs, ft, k);
                lemma_last_field_concat(fe, fs, k);
                lemma_last_field_one("event_type"@, FieldView::Text(a.event_type@), k);
                lemma_last_field_one("severity"@, FieldView::Text(a.severity@), k);
                lemma_last_field_one("title"@, FieldView::Text(a.title@), k);
                lemma_last_field_opt_text("channel_id"@, a.channel_id, k);
                lemma_last_field_opt_text("channel_name"@, a.channel_name, k);
                lemma_last_field_opt_text("workflow_slug"@, a.workflow_slug, k);
                lemma_last_field_opt_text("run_id"@, a.run_id, k);
                lemma_last_field_opt_text("body"@, a.body, k);
                lemma_last_field_opt_json("payload"@, payload, k);
            }
            assert(last_field(fields, "event_type"@) == Some(FieldView::Text(a.event_type@)));
            assert(last_field(fields, "severity"@) == Some(FieldView::Text(a.severity@)));
            assert(last_field(fields, "title"@) == Some(FieldView::Text(a.title@)));
            assert(last_field(fields, "channel_id"@) == text_opt(a.channel_id));
            assert(last_field(fields, "channel_name"@) == text_opt(a.channel_name));
            assert(last_field(fields, "workflow_slug"@) == text_opt(a.workflow_slug));
            assert(last_field(fields, "run_id"@) == text_opt(a.run_id));
            assert(last_field(fields, "body"@) == text_opt(a.body));
            assert(last_field(fields, "payload"@) == json_opt(payload));
        },
    }
}

} // verus!
