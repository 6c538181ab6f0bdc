use doneyet_cli::cli::OutputFormat;
use doneyet_cli::client::Auth;
use doneyet_cli::commands::auth::{
    login_config, logout_config, mask, mask_or_unset, probes_session, whoami_lines,
};
use doneyet_cli::commands::config::{
    accept_entered, action_or_show, prompt_text, set_key, show_lines, unset_key, value_source,
    ConfigAction, ConfigArgs, ConfigKey, ValueSource,
};
use doneyet_cli::commands::pat::{
    create_request, list_columns, list_request, metadata_lines, response_token, revoke_request, token_disposal,
    ttl_seconds, CreateArgs, RevokeArgs, TokenDisposal, DAY_S,
};
use doneyet_cli::commands::CommandError;
use doneyet_cli::config::{ResolvedConfig, StoredConfig};
use doneyet_cli::json::str_member;
use doneyet_cli::output::{
    cell, cell_text, object_table_header, object_table_rows, table_header, table_row,
};
use doneyet_cli::request::{FieldValue, Method};

fn value(s: &str) -> serde_json::Value {
    serde_json::from_str(s).unwrap()
}

#[test]
fn mask_short_and_long() {
    assert_eq!(mask(""), "");
    assert_eq!(mask("short"), "*****");
    assert_eq!(mask("12345678"), "********");
    assert_eq!(mask("abcdefghijkl"), "abcd…ijkl");
    assert_eq!(mask_or_unset(&None), "<unset>");
    assert_eq!(mask_or_unset(&Some("dyt_pat_0123456789".into())), "dyt_…6789");
}

#[test]
fn mask_law_reveals_at_most_eight_chars() {
    let secret = "supersecretvalue-with-many-characters";
    let m = mask(secret);
    let shown: String = m.chars().filter(|c| *c != '…').collect();
    assert_eq!(shown.len(), 8);
    assert!(!m.contains("secretvalue"));
}

#[test]
fn login_trims_and_refuses_empty() {
    let cfg = StoredConfig { api_url: Some("http://old".into()), admin_token: None, read_basic: Some("u:p".into()) };
    let saved = login_config(cfg.clone(), None, "  tok-1 \n").unwrap();
    assert_eq!(saved.admin_token.as_deref(), Some("tok-1"));
    assert_eq!(saved.api_url.as_deref(), Some("http://old"));
    assert_eq!(saved.read_basic.as_deref(), Some("u:p"));
    let saved = login_config(cfg.clone(), Some("http://new".into()), "t").unwrap();
    assert_eq!(saved.api_url.as_deref(), Some("http://new"));
    let e = login_config(cfg, None, " \t ").unwrap_err();
    assert!(matches!(e, CommandError::EmptyToken));
    assert_eq!(e.headline(), "empty token");
}

#[test]
fn logout_clears_only_the_token() {
    let cfg = StoredConfig { api_url: Some("http://x".into()), admin_token: Some("t".into()), read_basic: Some("u:p".into()) };
    let out = logout_config(cfg);
    assert_eq!(out.admin_token, None);
    assert_eq!(out.api_url.as_deref(), Some("http://x"));
    assert_eq!(out.read_basic.as_deref(), Some("u:p"));
}

#[test]
fn whoami_lines_mask_token() {
    let cfg = ResolvedConfig {
        api_url: "http://localhost:3001".into(),
        admin_token: Some("abcdefghijkl".into()),
        run_token: None,
        read_basic: None,
        insecure: false,
    };
    assert_eq!(whoami_lines(&cfg), vec!["api_url     = http://localhost:3001", "admin_token = abcd…ijkl"]);
    assert!(probes_session(&cfg));
    let cfg = ResolvedConfig { admin_token: None, ..cfg };
    assert_eq!(whoami_lines(&cfg)[1], "admin_token = <unset>");
    assert!(!probes_session(&cfg));
}

#[test]
fn config_set_unset_law() {
    let cfg = StoredConfig::default();
    let s = set_key(cfg, ConfigKey::ApiUrl, "http://a".into());
    assert_eq!(s.api_url.as_deref(), Some("http://a"));
    assert_eq!(s.admin_token, None);
    let s = set_key(s, ConfigKey::ReadBasic, "u:p".into());
    let u = unset_key(s.clone(), ConfigKey::ReadBasic);
    assert_eq!(u.read_basic, None);
    assert_eq!(u.api_url.as_deref(), Some("http://a"));
    let t = set_key(s, ConfigKey::AdminToken, "t".into());
    assert_eq!(t.admin_token.as_deref(), Some("t"));
    assert_eq!(t.read_basic.as_deref(), Some("u:p"));
}

#[test]
fn config_show_lines() {
    let cfg = StoredConfig { api_url: None, admin_token: Some("abcdefghijkl".into()), read_basic: None };
    assert_eq!(
        show_lines(&cfg),
        vec![
            "api_url     = <unset, default http://localhost:3001>",
            "admin_token = abcd…ijkl",
            "read_basic  = <unset>",
        ]
    );
    assert!(matches!(action_or_show(ConfigArgs { action: None }), ConfigAction::Show));
    assert!(matches!(action_or_show(ConfigArgs { action: Some(ConfigAction::Path) }), ConfigAction::Path));
}

#[test]
fn config_value_sources() {
    assert_eq!(value_source(ConfigKey::AdminToken, "-"), ValueSource::Prompt { admin_token: true });
    assert_eq!(value_source(ConfigKey::ReadBasic, "-"), ValueSource::Prompt { admin_token: false });
    assert_eq!(value_source(ConfigKey::AdminToken, "secret"), ValueSource::Given { warn: true });
    assert_eq!(value_source(ConfigKey::AdminToken, ""), ValueSource::Given { warn: false });
    assert_eq!(value_source(ConfigKey::ApiUrl, "-"), ValueSource::Given { warn: false });
    assert_eq!(prompt_text(true), "admin token: ");
    assert_eq!(prompt_text(false), "read basic (user:pass): ");
    assert_eq!(accept_entered(" tok\n").unwrap(), "tok");
    assert!(matches!(accept_entered("\n").unwrap_err(), CommandError::EmptyValue));
}

fn pat_args() -> CreateArgs {
    CreateArgs { label: "ci-runner".into(), ttl_days: 30, created_by: None, save: None, show: false }
}

#[test]
fn pat_create_request() {
    let r = create_request(&pat_args()).unwrap();
    assert_eq!(r.method, Method::Post);
    assert_eq!(r.path, "/pats");
    assert_eq!(r.auth, Auth::Admin);
    let body = r.body.unwrap();
    assert_eq!(body.fields.len(), 2);
    assert!(matches!(body.fields[1].value, FieldValue::Int(2592000)));
    let e = create_request(&CreateArgs { ttl_days: 0, ..pat_args() }).unwrap_err();
    assert_eq!(e.headline(), "--ttl-days must be positive (PATs cannot be issued without an expiry)");
    let r = create_request(&CreateArgs { created_by: Some("me".into()), ..pat_args() }).unwrap();
    assert_eq!(r.body.unwrap().fields[2].key, "created_by");
}

#[test]
fn pat_ttl_saturates() {
    assert_eq!(DAY_S, 86400);
    assert_eq!(ttl_seconds(1), 86400);
    assert_eq!(ttl_seconds(i64::MAX / 86400 + 1), i64::MAX);
    assert_eq!(ttl_seconds(-2), -172800);
    assert_eq!(ttl_seconds(i64::MIN), i64::MIN);
}

#[test]
fn pat_token_and_metadata() {
    let resp = value(r#"{"id":"p1","label":"ci","token":"dyt_secret","expires_at":"2030"}"#);
    assert_eq!(response_token(&resp).unwrap(), "dyt_secret");
    assert!(matches!(response_token(&value("{}")).unwrap_err(), CommandError::MissingToken));
    assert!(matches!(response_token(&value(r#"{"token":1}"#)).unwrap_err(), CommandError::MissingToken));
    let lines = metadata_lines(&resp);
    assert_eq!(lines[0], "id        : p1");
    assert_eq!(lines[1], "label     : ci");
    assert_eq!(lines[2], "prefix    : -");
    assert_eq!(lines[4], "expires   : 2030");
    assert!(lines.iter().all(|l| !l.contains("dyt_secret")));
}

#[test]
fn pat_token_disposal_law() {
    let a = pat_args();
    assert_eq!(token_disposal(&a, OutputFormat::Table, true), TokenDisposal::Withhold);
    assert_eq!(token_disposal(&a, OutputFormat::Table, false), TokenDisposal::PrintToStdout { warn: false });
    assert_eq!(token_disposal(&a, OutputFormat::Json, true), TokenDisposal::EmitJson);
    let shown = CreateArgs { show: true, ..pat_args() };
    assert_eq!(token_disposal(&shown, OutputFormat::Table, true), TokenDisposal::PrintToStdout { warn: true });
    let saved = CreateArgs { save: Some("/tmp/x".into()), show: true, ..pat_args() };
    assert_eq!(token_disposal(&saved, OutputFormat::Json, false), TokenDisposal::SaveToFile);
}

#[test]
fn pat_list_and_revoke() {
    let r = list_request();
    assert_eq!((r.method, r.path.as_str(), r.auth), (Method::Get, "/pats", Auth::Admin));
    let r = revoke_request(&RevokeArgs { id: "a/b".into() });
    assert_eq!((r.method, r.path.as_str(), r.auth), (Method::Delete, "/pats/a%2Fb", Auth::Admin));
}

#[test]
fn stringify_cells() {
    assert_eq!(cell_text(&value("null")), "-");
    assert_eq!(cell_text(&value("\"hi\"")), "hi");
    assert_eq!(cell_text(&value("true")), "true");
    assert_eq!(cell_text(&value("false")), "false");
    assert_eq!(cell_text(&value("42")), "42");
    assert_eq!(cell_text(&value("1.5")), "1.5");
    assert_eq!(cell_text(&value("[1, 2]")), "[1,2]");
    assert_eq!(cell_text(&value(r#"{"a": "b"}"#)), r#"{"a":"b"}"#);
}

#[test]
fn table_rendering_parts() {
    assert_eq!(table_header(&["run_id", "workflow_slug"]), vec!["RUN_ID", "WORKFLOW_SLUG"]);
    let row = value(r#"{"id":"r1","status":null,"progress_pct":25}"#);
    assert_eq!(table_row(&row, &["id", "status", "progress_pct", "missing"]), vec!["r1", "-", "25", "-"]);
    assert_eq!(cell(&value("[1]"), "id"), "-");
    let rows = object_table_rows(&row, &[("slug", "id"), ("pct", "progress_pct")]);
    assert_eq!(rows, vec![("slug".to_string(), "r1".to_string()), ("pct".to_string(), "25".to_string())]);
    assert_eq!(str_member(&row, "id").as_deref(), Some("r1"));
    assert_eq!(str_member(&row, "progress_pct"), None);
}

#[test]
fn pat_list_columns() {
    assert_eq!(
        list_columns(),
        vec![
            "id",
            "label",
            "prefix",
            "created_by",
            "created_at",
            "last_used_at",
            "expires_at",
            "expired",
            "revoked_at",
        ]
    );
}

#[test]
fn object_table_has_field_value_header() {
    assert_eq!(object_table_header(), vec!["FIELD", "VALUE"]);
    let v = value(r#"{"a":"x","foo":{"bar":1}}"#);
    let rows = object_table_rows(&v, &[("A", "a"), ("Nested", "foo.bar")]);
    assert_eq!(
        rows,
        vec![("A".to_string(), "x".to_string()), ("Nested".to_string(), "-".to_string())]
    );
}
