//! `dyt run ...` — start, observe and control runs.
use vstd::prelude::*;

use crate::client::{header_value_ok, is_header_text, Auth};
use crate::commands::{
    has_query_item, json_file, json_file_of, json_flag, json_flag_of, lemma_param_is_query_item,
    push_opt_param, opt_param, segment_path, CommandError, CommandErrorView, FileText,
};
use crate::request::{
    body_request, fields_view, json_request, opt_int_field, opt_json_field, opt_text_field,
    plain_request, push_field, push_opt_int, push_opt_json, push_opt_text, simple_request,
    text_field, Body, BodyView, Field, FieldView, Method, Request, RequestView,
};
use crate::json::{json_str_member, parsed_json, str_member};
use crate::request::{
    json_opt, last_field, lemma_last_field_concat, lemma_last_field_opt_json,
    lemma_last_field_opt_text, text_opt,
};
use vstd::utf8::encode_utf8;
use crate::text::{concat2, i64_decimal, int_decimal};
use crate::url::url_encoded;

verus! {

#[derive(Debug)]
pub struct RunArgs {
    pub action: RunAction,
}

#[derive(Debug)]
pub enum RunAction {
    /// List runs (filter by status / workflow / since / limit).
    List(ListArgs),
    /// Get a single run by id. Requires the run's bearer token.
    Get { id: String },
    /// Start a new run. Returns {id, token}; admin token required.
    Start(StartArgs),
    /// Send a single heartbeat. Requires --run-token.
    Heartbeat(HeartbeatArgs),
    /// Loop heartbeats every --interval seconds until ^C.
    Tail(TailArgs),
    /// Finish a run (status = succeeded | failed). Requires --run-token.
    Finish(FinishArgs),
    /// Cancel a run (admin only).
    Cancel { id: String },
    /// Show the handoff chain (root → leaves) for a run id.
    Chain { id: String },
}

#[derive(Debug, Clone)]
pub struct ListArgs {
    pub status: Option<String>,
    pub workflow: Option<String>,
    /// ISO-8601 timestamp, e.g. 2025-05-16T00:00:00Z
    pub since: Option<String>,
    pub limit: i64,
}

#[derive(Debug, Clone)]
pub struct StartArgs {
    /// Workflow slug to start a run for.
    pub slug: String,
    /// Free-form correlation id (CI build #, k8s job uid, etc.).
    pub external_ref: Option<String>,
    /// Cluster tag — required when accepting a handoff.
    pub cluster: Option<String>,
    /// Inline JSON object passed verbatim as `metadata`.
    pub metadata: Option<String>,
    /// Read the metadata blob from a file.
    pub metadata_file: Option<std::path::PathBuf>,
    /// Accept a handoff. Pair with --handoff-token to authenticate.
    pub continue_from: Option<String>,
    /// One-time handoff token returned by `dyt handoff offer`.
    pub handoff_token: Option<String>,
    /// After starting, write the run token to this file (mode 0600).
    pub token_out: Option<std::path::PathBuf>,
}

#[derive(Debug, Clone)]
pub struct HeartbeatArgs {
    pub id: String,
    /// Progress 0-100 (omit for unknown).
    pub progress: Option<i64>,
    /// Short human-readable status line.
    pub message: Option<String>,
}

#[derive(Debug, Clone)]
pub struct TailArgs {
    pub id: String,
    /// Heartbeat interval, in seconds.
    pub interval: u64,
    pub message: Option<String>,
    /// Stop after N heartbeats (default: forever).
    pub count: Option<u64>,
}

#[derive(Debug, Clone)]
pub struct FinishArgs {
    pub id: String,
    pub status: String,
    pub message: Option<String>,
}

/// The view of a request that may have been refused.
pub open spec fn request_result_view(r: Result<Request, CommandError>) -> Result<
    RequestView,
    CommandErrorView,
> {
    match r {
        Ok(q) => Ok(q@),
        Err(e) => Err(e@),
    }
}

// ---------------------------------------------------------------------------
// list / get / cancel / chain
// ---------------------------------------------------------------------------

/// `GET /runs?limit=..[&status=..][&workflow=..][&since=..]`.
pub open spec fn list_path_of(a: ListArgs) -> Seq<char> {
    "/runs?limit="@ + int_decimal(a.limit as int) + opt_param("&status="@, a.status) + opt_param(
        "&workflow="@,
        a.workflow,
    ) + opt_param("&since="@, a.since)
}

/// The request that lists runs.
pub fn list_request(a: &ListArgs) -> (res: Request)
    ensures
        res@ == plain_request(Method::Get, list_path_of(*a), Auth::ReadOptional),
{
    let limit = i64_decimal(a.limit);
    let mut path = concat2("/runs?limit=", limit.as_str());
    push_opt_param(&mut path, "&status=", &a.status);
    push_opt_param(&mut path, "&workflow=", &a.workflow);
    push_opt_param(&mut path, "&since=", &a.since);
    simple_request(Method::Get, path, Auth::ReadOptional)
}

/// Law: a run listing asks `/runs?` with the limit as its first query item,
/// and every filter that is given stands in the query as `name=value`, the
/// value percent-encoded.
pub proof fn lemma_run_list_sends_every_filter(a: ListArgs)
    ensures
        list_path_of(a).subrange(0, 6) == "/runs?"@,
        has_query_item(list_path_of(a), "limit="@ + int_decimal(a.limit as int)),
        a.status matches Some(v) ==> has_query_item(list_path_of(a), "status="@ + url_encoded(v@)),
        a.workflow matches Some(v) ==> has_query_item(
            list_path_of(a),
            "workflow="@ + url_encoded(v@),
        ),
        a.since matches Some(v) ==> has_query_item(list_path_of(a), "since="@ + url_encoded(v@)),
{
    reveal_strlit("/runs?limit=");
    reveal_strlit("/runs?");
    reveal_strlit("limit=");
    reveal_strlit("&status=");
    reveal_strlit("status=");
    reveal_strlit("&workflow=");
    reveal_strlit("workflow=");
    reveal_strlit("&since=");
    reveal_strlit("since=");
    let path = list_path_of(a);
    let head = "/runs?limit="@ + int_decimal(a.limit as int);
    let ps = opt_param("&status="@, a.status);
    let pw = opt_param("&workflow="@, a.workflow);
    let pc = opt_param("&since="@, a.since);
    assert(path.subrange(0, 6) =~= "/runs?"@);
    let limit = "limit="@ + int_decimal(a.limit as int);
    assert(path.subrange(6, 6 + limit.len() as int) =~= limit);
    assert(path[5] == '?');
    assert(has_query_item(path, limit));
    assert("&status="@ =~= seq!['&'] + "status="@);
    assert("&workflow="@ =~= seq!['&'] + "workflow="@);
    assert("&since="@ =~= seq!['&'] + "since="@);
    assert(path =~= head + ps + (pw + pc));
    lemma_param_is_query_item(head, "&status="@, "status="@, a.status, pw + pc);
    assert(path =~= (head + ps) + pw + pc);
    lemma_param_is_query_item(head + ps, "&workflow="@, "workflow="@, a.workflow, pc);
    assert(path =~= (head + ps + pw) + pc + Seq::<char>::empty());
    lemma_param_is_query_item(head + ps + pw, "&since="@, "since="@, a.since, Seq::empty());
}

/// The columns of the run list table.
pub fn list_columns() -> (res: Vec<&'static str>)
    ensures
        res@ == seq!["id", "workflow_slug", "status", "progress_pct", "started_at", "finished_at"],
{
    vec!["id", "workflow_slug", "status", "progress_pct", "started_at", "finished_at"]
}

/// The request that reads one run (with the run's own token).
pub fn get_request(id: &str) -> (res: Request)
    ensures
        res@ == plain_request(Method::Get, "/runs/"@ + url_encoded(id@), Auth::Run),
{
    let path = segment_path("/runs/", id, "");
    proof {
        reveal_strlit("");
        assert(path@ =~= "/runs/"@ + url_encoded(id@));
    }
    simple_request(Method::Get, path, Auth::Run)
}

/// The request that cancels a run (admin only).
pub fn cancel_request(id: &str) -> (res: Request)
    ensures
        res@ == plain_request(
            Method::Post,
            "/runs/"@ + url_encoded(id@) + "/cancel"@,
            Auth::Admin,
        ),
{
    simple_request(Method::Post, segment_path("/runs/", id, "/cancel"), Auth::Admin)
}

/// The request that reads the handoff chain of a run.
pub fn chain_request(id: &str) -> (res: Request)
    ensures
        res@ == plain_request(
            Method::Get,
            "/runs/"@ + url_encoded(id@) + "/chain"@,
            Auth::ReadOptional,
        ),
{
    simple_request(Method::Get, segment_path("/runs/", id, "/chain"), Auth::ReadOptional)
}

/// The columns of the handoff chain table.
pub fn chain_columns() -> (res: Vec<&'static str>)
    ensures
        res@ == seq!["id", "workflow_slug", "status", "cluster", "started_at", "finished_at"],
{
    vec!["id", "workflow_slug", "status", "cluster", "started_at", "finished_at"]
}

// ---------------------------------------------------------------------------
// start
// ---------------------------------------------------------------------------

/// Whether the metadata comes from `--metadata-file` (and the caller has to
/// read that file): only when no inline `--metadata` is given.
pub fn reads_metadata_file(a: &StartArgs) -> (res: bool)
    ensures
        res == (a.metadata is None && a.metadata_file is Some),
{
    a.metadata.is_none() && a.metadata_file.is_some()
}

/// The metadata of a new run: inline `--metadata` wins; otherwise the text of
/// the metadata file, when the caller read one.
pub open spec fn start_metadata_of(a: StartArgs, file: Option<FileText>) -> Result<
    Option<serde_json::Value>,
    CommandErrorView,
> {
    match a.metadata {
        Some(s) => match json_flag_of("--metadata"@, s@) {
            Ok(v) => Ok(Some(v)),
            Err(e) => Err(e),
        },
        None => match file {
            Some(f) => match json_file_of(f) {
                Ok(v) => Ok(Some(v)),
                Err(e) => Err(e),
            },
            None => Ok(None),
        },
    }
}

/// The body of a start request.
pub open spec fn start_fields_of(a: StartArgs, metadata: Option<serde_json::Value>) -> Seq<
    (Seq<char>, FieldView),
> {
    opt_text_field("external_ref"@, a.external_ref) + opt_text_field("cluster"@, a.cluster)
        + opt_json_field("metadata"@, metadata)
}

/// `POST /workflows/{slug}/runs`, admin-authenticated; or, when accepting a
/// handoff, `?continue_from={parent}` authenticated by the handoff token alone.
pub open spec fn start_request_of(a: StartArgs, file: Option<FileText>) -> Result<
    RequestView,
    CommandErrorView,
> {
    match start_metadata_of(a, file) {
        Err(e) => Err(e),
        Ok(metadata) => {
            let fields = start_fields_of(a, metadata);
            let path = "/workflows/"@ + url_encoded(a.slug@) + "/runs"@;
            match a.continue_from {
                Some(parent) => match a.handoff_token {
                    None => Err(CommandErrorView::MissingHandoffToken),
                    Some(t) => if is_header_text(t@) {
                        Ok(
                            RequestView {
                                method: Method::Post,
                                path: path + "?continue_from="@ + url_encoded(parent@),
                                auth: Auth::Unauthenticated,
                                body: Some(BodyView { base: None, fields }),
                                handoff_token: Some(t@),
                            },
                        )
                    } else {
                        Err(CommandErrorView::BadHandoffToken)
                    },
                },
                None => Ok(body_request(Method::Post, path, Auth::Admin, None, fields)),
            }
        },
    }
}

fn start_metadata(a: &StartArgs, file: &Option<FileText>) -> (res: Result<
    Option<serde_json::Value>,
    CommandError,
>)
    ensures
        crate::commands::opt_json_result_view(res) == start_metadata_of(*a, *file),
{
    match &a.metadata {
        Some(s) => match json_flag("--metadata", s) {
            Ok(v) => Ok(Some(v)),
            Err(e) => Err(e),
        },
        None => match file {
            Some(f) => match json_file(f) {
                Ok(v) => Ok(Some(v)),
                Err(e) => Err(e),
            },
            None => Ok(None),
        },
    }
}

/// The request that starts a run. `file` is the metadata file's text, which
/// the caller reads when [`reads_metadata_file`] says so.
pub fn start_request(a: &StartArgs, file: &Option<FileText>) -> (res: Result<
    Request,
    CommandError,
>)
    ensures
        request_result_view(res) == start_request_of(*a, *file),
{
    let metadata = match start_metadata(a, file) {
        Ok(m) => m,
        Err(e) => return Err(e),
    };
    let mut fields: Vec<Field> = Vec::new();
    push_opt_text(&mut fields, "external_ref", a.external_ref.clone());
    push_opt_text(&mut fields, "cluster", a.cluster.clone());
    push_opt_json(&mut fields, "metadata", metadata);
    assert(fields_view(fields@) =~= start_fields_of(*a, metadata));
    let mut path = segment_path("/workflows/", a.slug.as_str(), "/runs");
    match &a.continue_from {
        Some(parent) => {
            let tok = match &a.handoff_token {
                Some(t) => t,
                None => return Err(CommandError::MissingHandoffToken),
            };
            if !header_value_ok(tok.as_str()) {
                return Err(CommandError::BadHandoffToken);
            }
            push_opt_param(&mut path, "?continue_from=", &a.continue_from);
            assert(path@ =~= "/workflows/"@ + url_encoded(a.slug@) + "/runs"@ + "?continue_from="@
                + url_encoded(parent@));
            let ghost fv = fields_view(fields@);
            let req = Request {
                method: Method::Post,
                path,
                auth: Auth::Unauthenticated,
                body: Some(Body { base: None, fields }),
                handoff_token: Some(tok.clone()),
            };
            assert(req@.body == Some(BodyView { base: None, fields: fv }));
            assert(req@.handoff_token == Some(tok@));
            assert(is_header_text(tok@));
            Ok(req)
        },
        None => Ok(json_request(Method::Post, path, Auth::Admin, None, fields)),
    }
}

/// The metadata flags hold JSON: the inline `--metadata` when it is given,
/// else the metadata file when one was read.
pub open spec fn start_metadata_parses(a: StartArgs, file: Option<FileText>) -> bool {
    match a.metadata {
        Some(m) => parsed_json(encode_utf8(m@)) is Ok,
        None => file matches Some(f) ==> parsed_json(encode_utf8(f.text@)) is Ok,
    }
}

/// Law: starting a run is refused exactly when the metadata is not JSON
/// (inline `--metadata` first, then the file, each with the parser's
/// explanation), or when `--continue-from` comes without a handoff token or
/// with one that is no header value. An accepted start is a `POST` to
/// `/workflows/{slug}/runs`: with the admin token, or, when accepting a
/// handoff, with `?continue_from={parent}` and the handoff token as its only
/// credential. The body sets `external_ref`, `cluster` and `metadata` when
/// given (the metadata as the JSON it parses to, the inline flag winning
/// over the file), and nothing else.
pub proof fn lemma_start_sends_every_field(a: StartArgs, file: Option<FileText>)
    ensures
        a.metadata matches Some(m) ==> (parsed_json(encode_utf8(m@)) matches Err(d)
            ==> start_request_of(a, file) == Err::<RequestView, CommandErrorView>(
            CommandErrorView::InvalidJson { flag: "--metadata"@, input: m@, detail: d },
        )),
        a.metadata is None ==> (file matches Some(f) ==> (parsed_json(encode_utf8(f.text@)) matches Err(
            d,
        ) ==> start_request_of(a, file) == Err::<RequestView, CommandErrorView>(
            CommandErrorView::InvalidJsonFile { path: f.path@, detail: d },
        ))),
        start_metadata_parses(a, file) && a.continue_from is Some && a.handoff_token is None
            ==> start_request_of(a, file) == Err::<RequestView, CommandErrorView>(
            CommandErrorView::MissingHandoffToken,
        ),
        start_request_of(a, file) is Ok <==> {
            &&& start_metadata_parses(a, file)
            &&& a.continue_from is Some ==> (a.handoff_token matches Some(t) && is_header_text(t@))
        },
        start_request_of(a, file) matches Ok(r) ==> {
            &&& r.method == Method::Post
            &&& a.continue_from is None ==> {
                &&& r.path == "/workflows/"@ + url_encoded(a.slug@) + "/runs"@
                &&& r.auth == Auth::Admin
                &&& r.handoff_token is None
            }
            &&& a.continue_from matches Some(parent) ==> {
                &&& r.path == "/workflows/"@ + url_encoded(a.slug@) + "/runs"@ + "?continue_from="@
                    + url_encoded(parent@)
                &&& r.auth == Auth::Unauthenticated
                &&& a.handoff_token matches Some(t) && r.handoff_token == Some(t@)
            }
            &&& r.body matches Some(b) && {
                &&& b.base is None
                &&& last_field(b.fields, "external_ref"@) == text_opt(a.external_ref)
                &&& last_field(b.fields, "cluster"@) == text_opt(a.cluster)
                &&& a.metadata matches Some(m) ==> (parsed_json(encode_utf8(m@)) matches Ok(v)
                    && last_field(b.fields, "metadata"@) == Some(FieldView::Json(v)))
                &&& a.metadata is None ==> (file matches Some(f) ==> (parsed_json(
                    encode_utf8(f.text@),
                ) matches Ok(v) && last_field(b.fields, "metadata"@) == Some(FieldView::Json(v))))
                &&& a.metadata is None && file is None ==> last_field(b.fields, "metadata"@) is None
                &&& forall|k: Seq<char>|
                    k != "external_ref"@ && k != "cluster"@ && k != "metadata"@
                        ==> #[trigger] last_field(b.fields, k) is None
            }
        },
{
    reveal_strlit("external_ref");
    reveal_strlit("cluster");
    reveal_strlit("metadata");
    // The three names differ in their first character.
    assert("external_ref"@[0] == 'e' && "cluster"@[0] == 'c' && "metadata"@[0] == 'm');
    match start_metadata_of(a, file) {
        Err(_) => {},
        Ok(metadata) => {
            let fe = opt_text_field("external_ref"@, a.external_ref);
            let fc = opt_text_field("cluster"@, a.cluster);
            let fm = opt_json_field("metadata"@, metadata);
            assert(start_fields_of(a, metadata) == fe + fc + fm);
            assert forall|k: Seq<char>|
                #[trigger] last_field(fe + fc + fm, k) == if k == "metadata"@ {
                    json_opt(metadata)
                } else if k == "cluster"@ {
                    text_opt(a.cluster)
                } else if k == "external_ref"@ {
                    text_opt(a.external_ref)
                } else {
                    None
                } by {
                lemma_last_field_concat(fe + fc, fm, k);
                lemma_last_field_concat(fe, fc, k);
                lemma_last_field_opt_text("external_ref"@, a.external_ref, k);
                lemma_last_field_opt_text("cluster"@, a.cluster, k);
                lemma_last_field_opt_json("metadata"@, metadata, k);
            }
            assert(last_field(fe + fc + fm, "external_ref"@) == text_opt(a.external_ref));
            assert(last_field(fe + fc + fm, "cluster"@) == text_opt(a.cluster));
            assert(last_field(fe + fc + fm, "metadata"@) == json_opt(metadata));
        },
    }
}

/// The run token to write after a start: the `token` string of the answer,
/// when `--token-out` names a file to write it to.
pub open spec fn token_to_write_of(resp: serde_json::Value, a: StartArgs) -> Option<Seq<char>> {
    match a.token_out {
        Some(_) => json_str_member(resp, "token"@),
        None => None,
    }
}

/// The run token that the caller writes to the `--token-out` file, if any.
pub fn token_to_write(resp: &serde_json::Value, a: &StartArgs) -> (res: Option<String>)
    ensures
        res.deep_view() == token_to_write_of(*resp, *a),
        a.token_out is None ==> res is None,
        a.token_out is Some ==> res.deep_view() == json_str_member(*resp, "token"@),
{
    match &a.token_out {
        Some(_) => str_member(resp, "token"),
        None => None,
    }
}

// ---------------------------------------------------------------------------
// heartbeat / tail / finish
// ---------------------------------------------------------------------------

/// The heartbeat path of a run.
pub open spec fn heartbeat_path_of(id: Seq<char>) -> Seq<char> {
    "/runs/"@ + url_encoded(id) + "/heartbeat"@
}

/// `POST /runs/{id}/heartbeat` with the given progress and message.
pub fn heartbeat_request(a: &HeartbeatArgs) -> (res: Request)
    ensures
        res@ == body_request(
            Method::Post,
            heartbeat_path_of(a.id@),
            Auth::Run,
            None,
            opt_int_field("progress_pct"@, a.progress) + opt_text_field("message"@, a.message),
        ),
        res@.path == "/runs/"@ + url_encoded(a.id@) + "/heartbeat"@,
{
    let mut fields: Vec<Field> = Vec::new();
    push_opt_int(&mut fields, "progress_pct", a.progress);
    push_opt_text(&mut fields, "message", a.message.clone());
    assert(fields_view(fields@) =~= opt_int_field("progress_pct"@, a.progress) + opt_text_field(
        "message"@,
        a.message,
    ));
    json_request(
        Method::Post,
        segment_path("/runs/", a.id.as_str(), "/heartbeat"),
        Auth::Run,
        None,
        fields,
    )
}

/// Whether `tail` sends anything at all: `--count 0` sends nothing.
pub fn tail_begins(a: &TailArgs) -> (res: bool)
    ensures
        res == (a.count != Some(0u64)),
{
    match a.count {
        Some(n) => n != 0,
        None => true,
    }
}

/// Seconds between two heartbeats of `tail` (at least one).
pub fn tail_interval_secs(a: &TailArgs) -> (res: u64)
    ensures
        res == if a.interval >= 1 { a.interval } else { 1 },
{
    if a.interval >= 1 {
        a.interval
    } else {
        1
    }
}

/// The heartbeat `tail` sends each tick.
pub fn tail_request(a: &TailArgs) -> (res: Request)
    ensures
        res@ == body_request(
            Method::Post,
            heartbeat_path_of(a.id@),
            Auth::Run,
            None,
            opt_text_field("message"@, a.message),
        ),
        res@.path == "/runs/"@ + url_encoded(a.id@) + "/heartbeat"@,
{
    let mut fields: Vec<Field> = Vec::new();
    push_opt_text(&mut fields, "message", a.message.clone());
    assert(fields_view(fields@) =~= opt_text_field("message"@, a.message));
    json_request(
        Method::Post,
        segment_path("/runs/", a.id.as_str(), "/heartbeat"),
        Auth::Run,
        None,
        fields,
    )
}

/// Whether `tail` stops after `sent` successful heartbeats.
pub open spec fn tail_done(sent: u64, count: Option<u64>) -> bool {
    match count {
        Some(max) => sent >= max,
        None => false,
    }
}

/// One step of `tail` after a heartbeat attempt: the new number of
/// successful heartbeats, and whether to stop. Failed heartbeats are not
/// counted.
pub fn tail_after_attempt(sent: u64, succeeded: bool, count: Option<u64>) -> (res: (u64, bool))
    requires
        succeeded ==> sent < u64::MAX,
    ensures
        res.0 == if succeeded { sent + 1 } else { sent as int },
        res.1 == tail_done(res.0, count),
{
    let now = if succeeded {
        sent + 1
    } else {
        sent
    };
    let stop = match count {
        Some(max) => now >= max,
        None => false,
    };
    (now, stop)
}

/// Law: `tail` never sends more successful heartbeats than `--count`: from a
/// state that has not stopped yet, one more attempt reaches at most `count`.
pub proof fn lemma_tail_never_exceeds_count(sent: u64, succeeded: bool, max: u64)
    requires
        !tail_done(sent, Some(max)),
    ensures
        (if succeeded { sent + 1 } else { sent as int }) <= max,
        succeeded && sent + 1 == max ==> tail_done((sent + 1) as u64, Some(max)),
{
}

/// Law: without `--count`, `tail` never stops by itself; with one, it stops
/// exactly once that many heartbeats have succeeded.
pub proof fn lemma_tail_stops_exactly_at_count(sent: u64, max: u64)
    ensures
        !tail_done(sent, None),
        tail_done(sent, Some(max)) <==> sent >= max,
{
}

/// `POST /runs/{id}/finish` with the final status and an optional message.
pub fn finish_request(a: &FinishArgs) -> (res: Request)
    ensures
        res@ == body_request(
            Method::Post,
            "/runs/"@ + url_encoded(a.id@) + "/finish"@,
            Auth::Run,
            None,
            seq![("status"@, FieldView::Text(a.status@))] + opt_text_field("message"@, a.message),
        ),
{
    let mut fields: Vec<Field> = Vec::new();
    push_field(&mut fields, text_field("status", a.status.clone()));
    push_opt_text(&mut fields, "message", a.message.clone());
    assert(fields_view(fields@) =~= seq![("status"@, FieldView::Text(a.status@))]
        + opt_text_field("message"@, a.message));
    json_request(
        Method::Post,
        segment_path("/runs/", a.id.as_str(), "/finish"),
        Auth::Run,
        None,
        fields,
    )
}

} // verus!
