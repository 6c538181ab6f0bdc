//! `dyt workflow ...` — manage workflows.
use vstd::prelude::*;

use crate::client::Auth;
use crate::commands::{json_file, json_file_of, segment_path, CommandError, CommandErrorView, FileText};
use crate::commands::run::request_result_view;
use crate::json::{json_kind, json_kind_of, JsonKind, JsonShape};
use crate::request::{
    body_request, fields_view, json_request, opt_int_field, opt_text_field, plain_request,
    push_field, push_opt_int, push_opt_text, simple_request, text_field, Field, FieldView, Method,
    Request, RequestView,
};
use crate::json::parsed_json;
use crate::request::{
    int_opt, last_field, lemma_last_field_concat, lemma_last_field_one, lemma_last_field_opt_int,
    lemma_last_field_opt_text, text_opt,
};
use crate::url::url_encoded;
use vstd::utf8::encode_utf8;

verus! {

#[derive(Debug)]
pub struct WorkflowArgs {
    pub action: WorkflowAction,
}

#[derive(Debug)]
pub enum WorkflowAction {
    /// List all workflows.
    List,
    /// Get one workflow by slug.
    Get { slug: String },
    /// Create or update a workflow (POST /workflows).
    Upsert(UpsertArgs),
    /// Soft-delete a workflow.
    Delete { slug: String },
    /// Print the Backstage catalog YAML for a workflow.
    Catalog { slug: String },
}

#[derive(Debug, Clone)]
pub struct UpsertArgs {
    /// Slug — stable url-safe identifier.
    pub slug: String,
    /// Human name.
    pub name: String,
    /// Optional description shown on the dashboard.
    pub description: Option<String>,
    /// Expected duration in seconds; used for overrun detection. Must be >= 0.
    pub expected_duration_s: Option<i64>,
    /// Grace window in seconds before missing heartbeats flip the run to "stalled". Must be >= 0.
    pub heartbeat_grace_s: Option<i64>,
    /// Owner team or user reference (Backstage-style: group:default/payments).
    pub owner: Option<String>,
    /// Read the full request body from this JSON file. Other flags merge in on top.
    pub from_file: Option<std::path::PathBuf>,
}

/// `GET /workflows`.
pub fn list_request() -> (res: Request)
    ensures
        res@ == plain_request(Method::Get, "/workflows"@, Auth::ReadOptional),
{
    simple_request(Method::Get, String::from_str("/workflows"), Auth::ReadOptional)
}

/// The columns of the workflow list table.
pub fn list_columns() -> (res: Vec<&'static str>)
    ensures
        res@ == seq!["slug", "name", "owner", "created_at"],
{
    vec!["slug", "name", "owner", "created_at"]
}

/// `GET /workflows/{slug}`.
pub fn get_request(slug: &str) -> (res: Request)
    ensures
        res@ == plain_request(Method::Get, "/workflows/"@ + url_encoded(slug@), Auth::ReadOptional),
{
    let path = segment_path("/workflows/", slug, "");
    proof {
        reveal_strlit("");
        assert(path@ =~= "/workflows/"@ + url_encoded(slug@));
    }
    simple_request(Method::Get, path, Auth::ReadOptional)
}

/// The rows of the table that shows one workflow: each label with the field
/// it shows.
pub fn get_rows() -> (res: Vec<(&'static str, &'static str)>)
    ensures
        res@ == seq![
            ("slug", "slug"),
            ("name", "name"),
            ("description", "description"),
            ("owner", "owner"),
            ("expected_duration_s", "expected_duration_s"),
            ("heartbeat_grace_s", "heartbeat_grace_s"),
            ("created_at", "created_at"),
            ("deleted_at", "deleted_at"),
        ],
{
    vec![
        ("slug", "slug"),
        ("name", "name"),
        ("description", "description"),
        ("owner", "owner"),
        ("expected_duration_s", "expected_duration_s"),
        ("heartbeat_grace_s", "heartbeat_grace_s"),
        ("created_at", "created_at"),
        ("deleted_at", "deleted_at"),
    ]
}

/// `DELETE /workflows/{slug}` (admin).
pub fn delete_request(slug: &str) -> (res: Request)
    ensures
        res@ == plain_request(Method::Delete, "/workflows/"@ + url_encoded(slug@), Auth::Admin),
{
    let path = segment_path("/workflows/", slug, "");
    proof {
        reveal_strlit("");
        assert(path@ =~= "/workflows/"@ + url_encoded(slug@));
    }
    simple_request(Method::Delete, path, Auth::Admin)
}

/// `GET /workflows/{slug}/catalog-info` (a plain-text request).
pub fn catalog_request(slug: &str) -> (res: Request)
    ensures
        res@ == plain_request(
            Method::Get,
            "/workflows/"@ + url_encoded(slug@) + "/catalog-info"@,
            Auth::ReadOptional,
        ),
{
    simple_request(
        Method::Get,
        segment_path("/workflows/", slug, "/catalog-info"),
        Auth::ReadOptional,
    )
}

/// The flags of an upsert, set on top of the body read from `--from-file`.
pub open spec fn upsert_fields_of(a: UpsertArgs) -> Seq<(Seq<char>, FieldView)> {
    seq![("slug"@, FieldView::Text(a.slug@)), ("name"@, FieldView::Text(a.name@))]
        + opt_text_field("description"@, a.description) + opt_int_field(
        "expected_duration_s"@,
        a.expected_duration_s,
    ) + opt_int_field("heartbeat_grace_s"@, a.heartbeat_grace_s) + opt_text_field(
        "owner"@,
        a.owner,
    )
}

/// Whether an optional number is negative.
pub open spec fn is_negative(v: Option<i64>) -> bool {
    match v {
        Some(n) => n < 0,
        None => false,
    }
}

/// Whether the caller has to read `--from-file`: only when one is given and
/// the durations were not already refused.
pub fn reads_from_file(a: &UpsertArgs) -> (res: bool)
    ensures
        res == (a.from_file is Some && !is_negative(a.expected_duration_s) && !is_negative(
            a.heartbeat_grace_s,
        )),
{
    let expected_ok = match a.expected_duration_s {
        Some(v) => v >= 0,
        None => true,
    };
    let grace_ok = match a.heartbeat_grace_s {
        Some(v) => v >= 0,
        None => true,
    };
    a.from_file.is_some() && expected_ok && grace_ok
}

/// `POST /workflows` (admin). Negative durations are refused first; a
/// `--from-file` body must be a JSON object.
pub open spec fn upsert_request_of(a: UpsertArgs, file: Option<FileText>) -> Result<
    RequestView,
    CommandErrorView,
> {
    if is_negative(a.expected_duration_s) {
        Err(CommandErrorView::NegativeExpectedDuration)
    } else if is_negative(a.heartbeat_grace_s) {
        Err(CommandErrorView::NegativeHeartbeatGrace)
    } else {
        match file {
            Some(f) => match json_file_of(f) {
                Err(e) => Err(e),
                Ok(v) => if json_kind_of(v) is Object {
                    Ok(
                        body_request(
                            Method::Post,
                            "/workflows"@,
                            Auth::Admin,
                            Some(v),
                            upsert_fields_of(a),
                        ),
                    )
                } else {
                    Err(CommandErrorView::NotAnObject)
                },
            },
            None => Ok(
                body_request(Method::Post, "/workflows"@, Auth::Admin, None, upsert_fields_of(a)),
            ),
        }
    }
}

/// The request that creates or updates a workflow. `file` is the text of
/// `--from-file`, read by the caller when that flag is given.
pub fn upsert_request(a: &UpsertArgs, file: &Option<FileText>) -> (res: Result<
    Request,
    CommandError,
>)
    ensures
        request_result_view(res) == upsert_request_of(*a, *file),
{
    match a.expected_duration_s {
        Some(v) => if v < 0 {
            return Err(CommandError::NegativeExpectedDuration);
        },
        None => {},
    }
    match a.heartbeat_grace_s {
        Some(v) => if v < 0 {
            return Err(CommandError::NegativeHeartbeatGrace);
        },
        None => {},
    }
    let base = match file {
        Some(f) => {
            let v = match json_file(f) {
                Ok(v) => v,
                Err(e) => return Err(e),
            };
            match json_kind(&v) {
                JsonKind::Object => {},
                _ => return Err(CommandError::NotAnObject),
            }
            Some(v)
        },
        None => None,
    };
    let mut fields: Vec<Field> = Vec::new();
    push_field(&mut fields, text_field("slug", a.slug.clone()));
    push_field(&mut fields, text_field("name", a.name.clone()));
    push_opt_text(&mut fields, "description", a.description.clone());
    push_opt_int(&mut fields, "expected_duration_s", a.expected_duration_s);
    push_opt_int(&mut fields, "heartbeat_grace_s", a.heartbeat_grace_s);
    push_opt_text(&mut fields, "owner", a.owner.clone());
    assert(fields_view(fields@) =~= upsert_fields_of(*a));
    Ok(json_request(Method::Post, String::from_str("/workflows"), Auth::Admin, base, fields))
}

/// Law: an upsert is refused exactly for a negative duration (the expected
/// duration is checked first), a `--from-file` that is not JSON, or one that
/// is JSON but not an object. An accepted upsert is a `POST /workflows` with
/// the admin token; its body starts from the file's object, and sets `slug`
/// and `name` and every optional flag that is given, each under its own
/// name; it sets no other field.
pub proof fn lemma_upsert_sends_every_flag(a: UpsertArgs, file: Option<FileText>)
    ensures
        (a.expected_duration_s matches Some(n) && n < 0) ==> upsert_request_of(a, file) == Err::<
            RequestView,
            CommandErrorView,
        >(CommandErrorView::NegativeExpectedDuration),
        upsert_request_of(a, file) is Ok <==> {
            &&& (a.expected_duration_s matches Some(n) ==> n >= 0)
            &&& (a.heartbeat_grace_s matches Some(n) ==> n >= 0)
            &&& (file matches Some(f) ==> (parsed_json(encode_utf8(f.text@)) matches Ok(v)
                && json_kind_of(v) is Object))
        },
        upsert_request_of(a, file) matches Ok(r) ==> {
            &&& r.method == Method::Post
            &&& r.path == "/workflows"@
            &&& r.auth == Auth::Admin
            &&& r.handoff_token is None
            &&& r.body matches Some(b) && {
                &&& (file is None ==> b.base is None)
                &&& (file matches Some(f) ==> (b.base matches Some(v) && parsed_json(
                    encode_utf8(f.text@),
                ) matches Ok(w) && w == v))
                &&& last_field(b.fields, "slug"@) == Some(FieldView::Text(a.slug@))
                &&& last_field(b.fields, "name"@) == Some(FieldView::Text(a.name@))
                &&& last_field(b.fields, "description"@) == text_opt(a.description)
                &&& last_field(b.fields, "expected_duration_s"@) == int_opt(a.expected_duration_s)
                &&& last_field(b.fields, "heartbeat_grace_s"@) == int_opt(a.heartbeat_grace_s)
                &&& last_field(b.fields, "owner"@) == text_opt(a.owner)
                &&& forall|k: Seq<char>|
                    k != "slug"@ && k != "name"@ && k != "description"@ && k
                        != "expected_duration_s"@ && k != "heartbeat_grace_s"@ && k != "owner"@
                        ==> #[trigger] last_field(b.fields, k) is None
            }
        },
{
    reveal_strlit("slug");
    reveal_strlit("name");
    reveal_strlit("description");
    reveal_strlit("expected_duration_s");
    reveal_strlit("heartbeat_grace_s");
    reveal_strlit("owner");
    let f0 = seq![("slug"@, FieldView::Text(a.slug@))];
    let f1 = seq![("name"@, FieldView::Text(a.name@))];
    let fd = opt_text_field("description"@, a.description);
    let fe = opt_int_field("expected_duration_s"@, a.expected_duration_s);
    let fg = opt_int_field("heartbeat_grace_s"@, a.heartbeat_grace_s);
    let fo = opt_text_field("owner"@, a.owner);
    let fields = upsert_fields_of(a);
    // The six names differ in their first character.
    assert("slug"@[0] == 's' && "name"@[0] == 'n' && "description"@[0] == 'd');
    assert("expected_duration_s"@[0] == 'e' && "heartbeat_grace_s"@[0] == 'h' && "owner"@[0] == 'o');
    assert(f0 + f1 =~= seq![("slug"@, FieldView::Text(a.slug@)), ("name"@, FieldView::Text(a.name@))]);
    assert(fields =~= f0 + f1 + fd + fe + fg + fo);
    assert forall|k: Seq<char>|
        #[trigger] last_field(fields, k) == if k == "owner"@ {
            text_opt(a.owner)
        } else if k == "heartbeat_grace_s"@ {
            int_opt(a.heartbeat_grace_s)
        } else if k == "expected_duration_s"@ {
            int_opt(a.expected_duration_s)
        } else if k == "description"@ {
            text_opt(a.description)
        } else if k == "name"@ {
            Some(FieldView::Text(a.name@))
        } else if k == "slug"@ {
            Some(FieldView::Text(a.slug@))
        } else {
            None
        } by {
        lemma_last_field_concat(f0 + f1 + fd + fe + fg, fo, k);
        lemma_last_field_concat(f0 + f1 + fd + fe, fg, k);
        lemma_last_field_concat(f0 + f1 + fd, fe, k);
        lemma_last_field_concat(f0 + f1, fd, k);
        lemma_last_field_concat(f0, f1, k);
        lemma_last_field_one("slug"@, FieldView::Text(a.slug@), k);
        lemma_last_field_one("name"@, FieldView::Text(a.name@), k);
        lemma_last_field_opt_text("description"@, a.description, k);
        lemma_last_field_opt_int("expected_duration_s"@, a.expected_duration_s, k);
        lemma_last_field_opt_int("heartbeat_grace_s"@, a.heartbeat_grace_s, k);
        lemma_last_field_opt_text("owner"@, a.owner, k);
    }
    assert(last_field(fields, "slug"@) == Some(FieldView::Text(a.slug@)));
    assert(last_field(fields, "name"@) == Some(FieldView::Text(a.name@)));
    assert(last_field(fields, "description"@) == text_opt(a.description));
    assert(last_field(fields, "expected_duration_s"@) == int_opt(a.expected_duration_s));
    assert(last_field(fields, "heartbeat_grace_s"@) == int_opt(a.heartbeat_grace_s));
    assert(last_field(fields, "owner"@) == text_opt(a.owner));
}

} // verus!
