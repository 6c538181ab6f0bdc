use doneyet_cli::client::Auth;
use doneyet_cli::commands::handoff::{self, expire_request, offer_request, OfferArgs};
use doneyet_cli::commands::notify::{
    self, channel_create_request, channel_delete_request, channel_list_request,
    ChannelCreateArgs, UpdateArgs as NotifyUpdateArgs,
};
use doneyet_cli::commands::overview::overview_request;
use doneyet_cli::commands::run::{
    cancel_request, chain_request, finish_request, get_request, heartbeat_request, list_request,
    reads_metadata_file, start_request, tail_after_attempt, tail_begins, tail_interval_secs,
    tail_request, token_to_write, FinishArgs, HeartbeatArgs, ListArgs, StartArgs, TailArgs,
};
use doneyet_cli::commands::run::{chain_columns, list_columns as run_list_columns};
use doneyet_cli::commands::sla::{at_risk_columns, at_risk_request};
use doneyet_cli::commands::step::{self, CreateArgs as StepCreateArgs, UpdateArgs as StepUpdateArgs};
use doneyet_cli::commands::auth::me_request;
use doneyet_cli::commands::system::{health_path, health_request};
use doneyet_cli::commands::workflow::{self, upsert_request, UpsertArgs};
use doneyet_cli::commands::{CommandError, FileText};
use doneyet_cli::request::{body_json, field_json, Body, Field, FieldValue, Method, Request};

fn keys(body: &Body) -> Vec<String> {
    body.fields.iter().map(|f| f.key.clone()).collect()
}

fn text_of(body: &Body, key: &str) -> Option<String> {
    body.fields.iter().find(|f| f.key == key).and_then(|f| match &f.value {
        FieldValue::Text(s) => Some(s.clone()),
        _ => None,
    })
}

fn int_of(body: &Body, key: &str) -> Option<i64> {
    body.fields.iter().find(|f| f.key == key).and_then(|f| match &f.value {
        FieldValue::Int(i) => Some(*i),
        _ => None,
    })
}

fn json_of(body: &Body, key: &str) -> Option<serde_json::Value> {
    body.fields.iter().find(|f| f.key == key).and_then(|f| match &f.value {
        FieldValue::Json(v) => Some(v.clone()),
        _ => None,
    })
}

fn plain(r: &Request, method: Method, path: &str, auth: Auth) {
    assert_eq!(r.method, method);
    assert_eq!(r.path, path);
    assert_eq!(r.auth, auth);
    assert!(r.body.is_none());
    assert!(r.handoff_token.is_none());
}

fn start_args() -> StartArgs {
    StartArgs {
        slug: "nightly export".into(),
        external_ref: None,
        cluster: None,
        metadata: None,
        metadata_file: None,
        continue_from: None,
        handoff_token: None,
        token_out: None,
    }
}

#[test]
fn run_list_request_builds_query() {
    let a = ListArgs {
        status: Some("running".into()),
        workflow: Some("a/b".into()),
        since: None,
        limit: 100,
    };
    plain(
        &list_request(&a),
        Method::Get,
        "/runs?limit=100&status=running&workflow=a%2Fb",
        Auth::ReadOptional,
    );
    let a = ListArgs { status: None, workflow: None, since: Some("2025-05-16T00:00:00Z".into()), limit: -1 };
    plain(&list_request(&a), Method::Get, "/runs?limit=-1&since=2025-05-16T00%3A00%3A00Z", Auth::ReadOptional);
}

#[test]
fn run_single_paths() {
    plain(&get_request("r/1"), Method::Get, "/runs/r%2F1", Auth::Run);
    plain(&cancel_request("r1"), Method::Post, "/runs/r1/cancel", Auth::Admin);
    plain(&chain_request("r1"), Method::Get, "/runs/r1/chain", Auth::ReadOptional);
}

#[test]
fn run_start_admin_with_fields() {
    let mut a = start_args();
    a.external_ref = Some("build-7".into());
    a.metadata = Some(r#"{"sha":"abc1234"}"#.into());
    let r = start_request(&a, &None).unwrap();
    assert_eq!(r.method, Method::Post);
    assert_eq!(r.path, "/workflows/nightly%20export/runs");
    assert_eq!(r.auth, Auth::Admin);
    assert!(r.handoff_token.is_none());
    let body = r.body.unwrap();
    assert_eq!(keys(&body), vec!["external_ref", "metadata"]);
    assert_eq!(text_of(&body, "external_ref").as_deref(), Some("build-7"));
    let expected: serde_json::Value = serde_json::from_str(r#"{"sha":"abc1234"}"#).unwrap();
    assert_eq!(json_of(&body, "metadata"), Some(expected));
}

#[test]
fn run_start_bad_metadata_is_refused() {
    let mut a = start_args();
    a.metadata = Some("{not json".into());
    match start_request(&a, &None) {
        Err(e @ CommandError::InvalidJson { .. }) => {
            assert_eq!(e.headline(), "--metadata must be JSON: {not json");
            let parser = serde_json::from_str::<serde_json::Value>("{not json").unwrap_err();
            assert_eq!(e.cause(), Some(parser.to_string()));
        }
        other => panic!("unexpected {other:?}"),
    }
}

#[test]
fn run_start_metadata_from_file() {
    let mut a = start_args();
    a.metadata_file = Some(std::path::PathBuf::from("meta.json"));
    assert!(reads_metadata_file(&a));
    let file = Some(FileText { path: "meta.json".into(), text: "[1, 2]".into() });
    let body = start_request(&a, &file).unwrap().body.unwrap();
    assert_eq!(json_of(&body, "metadata"), Some(serde_json::from_str("[1,2]").unwrap()));

    let bad = Some(FileText { path: "meta.json".into(), text: "nope".into() });
    let e = start_request(&a, &bad).unwrap_err();
    assert_eq!(e.headline(), "parsing meta.json as JSON");

    a.metadata = Some("1".into());
    assert!(!reads_metadata_file(&a));
}

#[test]
fn run_start_handoff() {
    let mut a = start_args();
    a.continue_from = Some("parent/1".into());
    let e = start_request(&a, &None).unwrap_err();
    assert!(matches!(e, CommandError::MissingHandoffToken));
    assert_eq!(e.headline(), "--continue-from requires --handoff-token");

    a.handoff_token = Some("bad\ntoken".into());
    let e = start_request(&a, &None).unwrap_err();
    assert!(matches!(e, CommandError::BadHandoffToken));

    a.handoff_token = Some("hot-123".into());
    a.cluster = Some("eu-1".into());
    let r = start_request(&a, &None).unwrap();
    assert_eq!(r.path, "/workflows/nightly%20export/runs?continue_from=parent%2F1");
    assert_eq!(r.auth, Auth::Unauthenticated);
    assert_eq!(r.handoff_token.as_deref(), Some("hot-123"));
    assert_eq!(keys(r.body.as_ref().unwrap()), vec!["cluster"]);
}

#[test]
fn run_heartbeat_and_finish_bodies() {
    let r = heartbeat_request(&HeartbeatArgs { id: "r1".into(), progress: Some(25), message: Some("extract".into()) });
    assert_eq!(r.path, "/runs/r1/heartbeat");
    assert_eq!(r.auth, Auth::Run);
    let body = r.body.unwrap();
    assert_eq!(keys(&body), vec!["progress_pct", "message"]);
    assert_eq!(int_of(&body, "progress_pct"), Some(25));

    let r = heartbeat_request(&HeartbeatArgs { id: "r1".into(), progress: None, message: None });
    assert!(r.body.unwrap().fields.is_empty());

    let r = finish_request(&FinishArgs { id: "r1".into(), status: "succeeded".into(), message: Some("10k rows".into()) });
    assert_eq!(r.path, "/runs/r1/finish");
    let body = r.body.unwrap();
    assert_eq!(keys(&body), vec!["status", "message"]);
    assert_eq!(text_of(&body, "status").as_deref(), Some("succeeded"));
}

#[test]
fn run_tail_decisions() {
    let a = TailArgs { id: "r1".into(), interval: 0, message: None, count: Some(0) };
    assert!(!tail_begins(&a));
    assert_eq!(tail_interval_secs(&a), 1);
    let a = TailArgs { id: "r1".into(), interval: 10, message: Some("still".into()), count: Some(2) };
    assert!(tail_begins(&a));
    assert_eq!(tail_interval_secs(&a), 10);
    let r = tail_request(&a);
    assert_eq!(r.path, "/runs/r1/heartbeat");
    assert_eq!(keys(r.body.as_ref().unwrap()), vec!["message"]);
    assert_eq!(tail_after_attempt(0, true, Some(2)), (1, false));
    assert_eq!(tail_after_attempt(1, false, Some(2)), (1, false));
    assert_eq!(tail_after_attempt(1, true, Some(2)), (2, true));
    assert_eq!(tail_after_attempt(5, true, None), (6, false));
}

#[test]
fn tail_law_never_exceeds_count() {
    let outcomes = [true, false, true, false, false, true, true, true];
    for max in 1..4u64 {
        let (mut sent, mut stop) = (0u64, false);
        for ok in outcomes {
            if stop {
                break;
            }
            let (s, st) = tail_after_attempt(sent, ok, Some(max));
            sent = s;
            stop = st;
            assert!(sent <= max);
        }
        assert_eq!(sent, max);
    }
}

#[test]
fn handoff_requests() {
    let a = handoff::ListArgs { status: Some("offered".into()), from_run_id: Some("r 1".into()), limit: 5 };
    plain(&handoff::list_request(&a), Method::Get, "/handoffs?limit=5&status=offered&from_run_id=r%201", Auth::ReadOptional);
    let r = offer_request(&OfferArgs { run_id: "r1".into(), to_cluster: None, ttl_s: Some(600) });
    assert_eq!(r.path, "/runs/r1/handoff");
    assert_eq!(r.auth, Auth::Admin);
    assert_eq!(keys(r.body.as_ref().unwrap()), vec!["ttl_s"]);
    plain(&expire_request(), Method::Post, "/handoffs/expire", Auth::Admin);
}

#[test]
fn notify_requests() {
    plain(&channel_list_request(), Method::Get, "/notifications/channels", Auth::ReadOptional);
    plain(&channel_delete_request("c 1"), Method::Delete, "/notifications/channels/c%201", Auth::Admin);
    let a = ChannelCreateArgs { kind: "slack".into(), name: "oncall".into(), target: "https://hooks".into(), config: Some("{\"x\":1}".into()) };
    let r = channel_create_request(&a).unwrap();
    assert_eq!(keys(r.body.as_ref().unwrap()), vec!["kind", "name", "target", "config"]);
    let bad = ChannelCreateArgs { config: Some("{".into()), ..a };
    let e = channel_create_request(&bad).unwrap_err();
    assert_eq!(e.headline(), "--config must be JSON: {");

    let l = notify::ListArgs { channel_id: Some("c1".into()), workflow_slug: None, run_id: None, status: Some("failed".into()), event_type: None };
    plain(&notify::list_request(&l), Method::Get, "/notifications?channel_id=c1&status=failed", Auth::ReadOptional);
    let none = notify::ListArgs { channel_id: None, workflow_slug: None, run_id: None, status: None, event_type: None };
    plain(&notify::list_request(&none), Method::Get, "/notifications", Auth::ReadOptional);
    plain(&notify::get_request("n1"), Method::Get, "/notifications/n1", Auth::ReadOptional);
}

#[test]
fn notify_create_and_update() {
    let a = notify::CreateArgs {
        channel_id: None,
        channel_name: Some("oncall".into()),
        workflow_slug: None,
        run_id: None,
        event_type: "manual".into(),
        severity: "warning".into(),
        title: "deploy stalled".into(),
        body: None,
        payload: Some("{\"k\":true}".into()),
    };
    let r = notify::create_request(&a).unwrap();
    assert_eq!(r.path, "/notifications");
    assert_eq!(r.auth, Auth::Admin);
    assert_eq!(keys(r.body.as_ref().unwrap()), vec!["event_type", "severity", "title", "channel_name", "payload"]);

    let u = NotifyUpdateArgs { id: "n1".into(), status: None, retry_count: None, last_error: None, mark_delivered: false };
    let e = notify::update_request(&u).unwrap_err();
    assert!(e.headline().starts_with("no mutable fields provided"));
    let u = NotifyUpdateArgs { mark_delivered: true, retry_count: Some(2), ..u };
    let r = notify::update_request(&u).unwrap();
    assert_eq!(r.method, Method::Patch);
    assert_eq!(keys(r.body.as_ref().unwrap()), vec!["retry_count", "mark_delivered"]);
    assert!(matches!(r.body.unwrap().fields[1].value, FieldValue::Flag(true)));
}

#[test]
fn step_requests() {
    let r = step::create_request(&StepCreateArgs { run_id: "r1".into(), name: "extract".into(), sort_order: Some(3) });
    assert_eq!(r.path, "/runs/r1/steps");
    assert_eq!(keys(r.body.as_ref().unwrap()), vec!["name", "sort_order"]);

    let u = StepUpdateArgs { run_id: "r1".into(), step_id: "s/2".into(), status: None, message: None, checkpoint: None };
    let e = step::update_request(&u).unwrap_err();
    assert!(matches!(e, CommandError::NoStepFields));
    let u = StepUpdateArgs { checkpoint: Some("null".into()), ..u };
    let r = step::update_request(&u).unwrap();
    assert_eq!(r.method, Method::Patch);
    assert_eq!(r.path, "/runs/r1/steps/s%2F2");
    assert_eq!(json_of(r.body.as_ref().unwrap(), "checkpoint"), Some(serde_json::Value::Null));
    let u = StepUpdateArgs { checkpoint: Some("nul".into()), status: Some("running".into()), ..u };
    assert!(matches!(step::update_request(&u).unwrap_err(), CommandError::InvalidJson { .. }));
}

fn upsert_args() -> UpsertArgs {
    UpsertArgs {
        slug: "nightly-export".into(),
        name: "Nightly Export".into(),
        description: None,
        expected_duration_s: Some(3600),
        heartbeat_grace_s: Some(120),
        owner: Some("group:default/data".into()),
        from_file: None,
    }
}

#[test]
fn workflow_requests() {
    plain(&workflow::list_request(), Method::Get, "/workflows", Auth::ReadOptional);
    plain(&workflow::get_request("a b"), Method::Get, "/workflows/a%20b", Auth::ReadOptional);
    plain(&workflow::delete_request("a"), Method::Delete, "/workflows/a", Auth::Admin);
    plain(&workflow::catalog_request("a"), Method::Get, "/workflows/a/catalog-info", Auth::ReadOptional);
}

#[test]
fn workflow_upsert() {
    let r = upsert_request(&upsert_args(), &None).unwrap();
    assert_eq!(r.path, "/workflows");
    assert_eq!(r.auth, Auth::Admin);
    let body = r.body.unwrap();
    assert!(body.base.is_none());
    assert_eq!(keys(&body), vec!["slug", "name", "expected_duration_s", "heartbeat_grace_s", "owner"]);

    let a = UpsertArgs { expected_duration_s: Some(-1), heartbeat_grace_s: Some(-1), ..upsert_args() };
    assert!(matches!(upsert_request(&a, &None).unwrap_err(), CommandError::NegativeExpectedDuration));
    let a = UpsertArgs { heartbeat_grace_s: Some(-5), ..upsert_args() };
    let e = upsert_request(&a, &None).unwrap_err();
    assert_eq!(e.headline(), "--heartbeat-grace-s must be non-negative");

    let file = Some(FileText { path: "wf.json".into(), text: "[1]".into() });
    let e = upsert_request(&upsert_args(), &file).unwrap_err();
    assert_eq!(e.headline(), "--from-file must be a JSON object");
    let file = Some(FileText { path: "wf.json".into(), text: "{\"extra\":1,\"name\":\"old\"}".into() });
    let body = upsert_request(&upsert_args(), &file).unwrap().body.unwrap();
    assert_eq!(body.base, Some(serde_json::from_str("{\"extra\":1,\"name\":\"old\"}").unwrap()));
    assert_eq!(text_of(&body, "name").as_deref(), Some("Nightly Export"));
}

#[test]
fn small_requests() {
    plain(&overview_request(), Method::Get, "/overview", Auth::ReadOptional);
    plain(&at_risk_request("30m"), Method::Get, "/sla/at-risk?within=30m", Auth::ReadOptional);
    assert_eq!(health_path(), "/health");
    plain(&health_request(), Method::Get, "/health", Auth::Unauthenticated);
    plain(&me_request(), Method::Get, "/auth/me", Auth::Unauthenticated);
}

#[test]
fn workflow_reads_file_only_when_durations_ok() {
    let with_file = UpsertArgs { from_file: Some("wf.json".into()), ..upsert_args() };
    assert!(workflow::reads_from_file(&with_file));
    let negative = UpsertArgs { expected_duration_s: Some(-3), ..with_file };
    assert!(!workflow::reads_from_file(&negative));
    assert!(!workflow::reads_from_file(&upsert_args()));
}

#[test]
fn run_token_to_write_only_with_token_out() {
    let resp: serde_json::Value =
        serde_json::from_str(r#"{"id":"r1","token":"dyt_run_secret"}"#).unwrap();
    let mut a = start_args();
    assert_eq!(token_to_write(&resp, &a), None);
    a.token_out = Some(std::path::PathBuf::from("run.token"));
    assert_eq!(token_to_write(&resp, &a).as_deref(), Some("dyt_run_secret"));
    let no_token: serde_json::Value = serde_json::from_str(r#"{"id":"r1","token":7}"#).unwrap();
    assert_eq!(token_to_write(&no_token, &a), None);
}

#[test]
fn table_columns() {
    assert_eq!(workflow::list_columns(), vec!["slug", "name", "owner", "created_at"]);
    assert_eq!(
        run_list_columns(),
        vec!["id", "workflow_slug", "status", "progress_pct", "started_at", "finished_at"]
    );
    assert_eq!(
        chain_columns(),
        vec!["id", "workflow_slug", "status", "cluster", "started_at", "finished_at"]
    );
    assert_eq!(
        handoff::list_columns(),
        vec!["id", "from_run_id", "to_run_id", "to_cluster", "status", "expires_at"]
    );
    assert_eq!(
        at_risk_columns(),
        vec!["run_id", "workflow_slug", "expected_finish", "seconds_to_sla"]
    );
    assert_eq!(
        notify::channel_list_columns(),
        vec!["id", "kind", "name", "target", "created_at"]
    );
    assert_eq!(
        notify::list_columns(),
        vec!["id", "event_type", "severity", "title", "status", "retry_count", "created_at"]
    );
}

#[test]
fn workflow_get_rows() {
    let rows = workflow::get_rows();
    let labels: Vec<&str> = rows.iter().map(|r| r.0).collect();
    assert_eq!(
        labels,
        vec![
            "slug",
            "name",
            "description",
            "owner",
            "expected_duration_s",
            "heartbeat_grace_s",
            "created_at",
            "deleted_at",
        ]
    );
    assert!(rows.iter().all(|(label, field)| label == field));
}

fn field(key: &str, value: FieldValue) -> Field {
    Field { key: key.to_string(), value }
}

#[test]
fn body_json_sets_fields_over_base() {
    let base: serde_json::Value = serde_json::from_str(r#"{"a":1,"name":"old"}"#).unwrap();
    let meta: serde_json::Value = serde_json::from_str(r#"{"x":[1,2]}"#).unwrap();
    let body = Body {
        base: Some(base),
        fields: vec![
            field("name", FieldValue::Text("new".into())),
            field("n", FieldValue::Int(-5)),
            field("flag", FieldValue::Flag(true)),
            field("meta", FieldValue::Json(meta)),
            field("name", FieldValue::Text("newest".into())),
        ],
    };
    let expected: serde_json::Value = serde_json::from_str(
        r#"{"a":1,"name":"newest","n":-5,"flag":true,"meta":{"x":[1,2]}}"#,
    )
    .unwrap();
    assert_eq!(body_json(&body), expected);
}

#[test]
fn body_json_ignores_a_base_that_is_not_an_object() {
    let base: serde_json::Value = serde_json::from_str("[1,2,3]").unwrap();
    let body = Body { base: Some(base), fields: vec![field("k", FieldValue::Int(7))] };
    let expected: serde_json::Value = serde_json::from_str(r#"{"k":7}"#).unwrap();
    assert_eq!(body_json(&body), expected);
    let empty = Body { base: None, fields: vec![] };
    assert_eq!(body_json(&empty), serde_json::Value::Object(serde_json::Map::new()));
}

#[test]
fn field_json_forms() {
    assert_eq!(field_json(&FieldValue::Text("a b".into())), serde_json::Value::String("a b".into()));
    assert_eq!(field_json(&FieldValue::Int(i64::MIN)).to_string(), "-9223372036854775808");
    assert_eq!(field_json(&FieldValue::Flag(false)), serde_json::Value::Bool(false));
}
