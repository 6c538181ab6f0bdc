//! `dyt pat ...` — personal access token management against the doneyet
//! admin API.
//!
//! Every subcommand requires an existing valid PAT as the admin token. The
//! first PAT is seeded out-of-band with `doneyet-backend pat-bootstrap`.
use vstd::prelude::*;

use crate::cli::OutputFormat;
use crate::client::Auth;
use crate::commands::{segment_path, CommandError, CommandErrorView};
use crate::commands::run::request_result_view;
use crate::json::{json_str_member, str_member};
use crate::request::{
    body_request, fields_view, json_request, opt_text_field, plain_request, push_field,
    push_opt_text, simple_request, text_field, Field, FieldValue, FieldView, Method, Request,
    RequestView,
};
use crate::request::{
    last_field, lemma_last_field_concat, lemma_last_field_one, lemma_last_field_opt_text,
    text_opt,
};
use crate::text::concat2;
use crate::url::url_encoded;

verus! {

/// Seconds in a day.
pub const DAY_S: i64 = 24 * 3600;

#[derive(Debug)]
pub struct PatArgs {
    pub action: PatAction,
}

#[derive(Debug)]
pub enum PatAction {
    /// Mint a new PAT. Plaintext is shown only with --show, --save,
    /// `--output json`, or when stdout is not a TTY.
    Create(CreateArgs),
    /// List all PATs (active + revoked). Plaintext tokens are never returned.
    List,
    /// Revoke a PAT by id. Idempotent for already-revoked rows.
    Revoke(RevokeArgs),
}

#[derive(Debug, Clone)]
pub struct CreateArgs {
    /// Human-readable label, unique among active PATs (e.g. "ci-runner").
    pub label: String,
    /// TTL in days. Required — PATs cannot be issued without an expiry.
    pub ttl_days: i64,
    /// Optional free-form attribution stored on the row.
    pub created_by: Option<String>,
    /// Write the plaintext token to this file (0600 on Unix).
    pub save: Option<String>,
    /// Print the plaintext token on stdout even when stdout is a TTY.
    pub show: bool,
}

#[derive(Debug, Clone)]
pub struct RevokeArgs {
    /// PAT id (UUID) as returned by `dyt pat list`.
    pub id: String,
}

/// `days` in seconds, saturating at the bounds of `i64`.
pub open spec fn ttl_seconds_of(days: i64) -> i64 {
    if days * DAY_S > i64::MAX {
        i64::MAX
    } else if days * DAY_S < i64::MIN {
        i64::MIN
    } else {
        (days * DAY_S) as i64
    }
}

/// `POST /pats` (admin) with the label, the TTL in seconds and the optional
/// attribution; refused unless `--ttl-days` is positive.
pub open spec fn create_request_of(a: CreateArgs) -> Result<RequestView, CommandErrorView> {
    if a.ttl_days <= 0 {
        Err(CommandErrorView::TtlNotPositive)
    } else {
        Ok(
            body_request(
                Method::Post,
                "/pats"@,
                Auth::Admin,
                None,
                seq![
                    ("label"@, FieldView::Text(a.label@)),
                    ("ttl_s"@, FieldView::Int(ttl_seconds_of(a.ttl_days))),
                ] + opt_text_field("created_by"@, a.created_by),
            ),
        )
    }
}

/// `days * DAY_S`, saturating at the bounds of `i64`.
pub fn ttl_seconds(days: i64) -> (res: i64)
    ensures
        res == ttl_seconds_of(days),
        res == if days * 86400 > i64::MAX {
            i64::MAX as int
        } else if days * 86400 < i64::MIN {
            i64::MIN as int
        } else {
            days * 86400
        },
{
    match days.checked_mul(DAY_S) {
        Some(v) => v,
        None => if days > 0 {
            i64::MAX
        } else {
            i64::MIN
        },
    }
}

/// The request that mints a PAT.
pub fn create_request(a: &CreateArgs) -> (res: Result<Request, CommandError>)
    ensures
        request_result_view(res) == create_request_of(*a),
{
    if a.ttl_days <= 0 {
        return Err(CommandError::TtlNotPositive);
    }
    let ttl_s = ttl_seconds(a.ttl_days);
    let mut fields: Vec<Field> = Vec::new();
    push_field(&mut fields, text_field("label", a.label.clone()));
    push_field(&mut fields, Field { key: String::from_str("ttl_s"), value: FieldValue::Int(ttl_s) });
    push_opt_text(&mut fields, "created_by", a.created_by.clone());
    assert(fields_view(fields@) =~= seq![
        ("label"@, FieldView::Text(a.label@)),
        ("ttl_s"@, FieldView::Int(ttl_seconds_of(a.ttl_days))),
    ] + opt_text_field("created_by"@, a.created_by));
    Ok(json_request(Method::Post, String::from_str("/pats"), Auth::Admin, None, fields))
}

/// Law: minting a PAT is refused exactly when `--ttl-days` is not positive.
/// An accepted one is a `POST /pats` with the admin token whose body sets
/// `label`, `ttl_s` (the days in seconds, 86400 a day, capped at `i64::MAX`)
/// and `created_by` when given, and nothing else.
pub proof fn lemma_pat_create_sends_every_field(a: CreateArgs)
    ensures
        create_request_of(a) is Err <==> a.ttl_days <= 0,
        create_request_of(a) matches Err(e) ==> e == CommandErrorView::TtlNotPositive,
        create_request_of(a) matches Ok(r) ==> {
            &&& r.method == Method::Post
            &&& r.path == "/pats"@
            &&& r.auth == Auth::Admin
            &&& r.handoff_token is None
            &&& r.body matches Some(b) && {
                &&& b.base is None
                &&& last_field(b.fields, "label"@) == Some(FieldView::Text(a.label@))
                &&& last_field(b.fields, "ttl_s"@) matches Some(FieldView::Int(t)) && t == if a.ttl_days
                    * 86400 > i64::MAX {
                    i64::MAX as int
                } else {
                    a.ttl_days * 86400
                }
                &&& last_field(b.fields, "created_by"@) == text_opt(a.created_by)
                &&& forall|k: Seq<char>|
                    k != "label"@ && k != "ttl_s"@ && k != "created_by"@
                        ==> #[trigger] last_field(b.fields, k) is None
            }
        },
{
    reveal_strlit("label");
    reveal_strlit("ttl_s");
    reveal_strlit("created_by");
    // The three names differ in their first character.
    assert("label"@[0] == 'l' && "ttl_s"@[0] == 't' && "created_by"@[0] == 'c');
    if a.ttl_days > 0 {
        let ttl = FieldView::Int(ttl_seconds_of(a.ttl_days));
        let fl = seq![("label"@, FieldView::Text(a.label@))];
        let ft = seq![("ttl_s"@, ttl)];
        let fc = opt_text_field("created_by"@, a.created_by);
        let fields = seq![("label"@, FieldView::Text(a.label@)), ("ttl_s"@, ttl)] + fc;
        assert(fields =~= fl + ft + fc);
        assert forall|k: Seq<char>|
            #[trigger] last_field(fields, k) == if k == "created_by"@ {
                text_opt(a.created_by)
            } else if k == "ttl_s"@ {
                Some(ttl)
            } else if k == "label"@ {
                Some(FieldView::Text(a.label@))
            } else {
                None
            } by {
            lemma_last_field_concat(fl + ft, fc, k);
            lemma_last_field_concat(fl, ft, k);
            lemma_last_field_one("label"@, FieldView::Text(a.label@), k);
            lemma_last_field_one("ttl_s"@, ttl, k);
            lemma_last_field_opt_text("created_by"@, a.created_by, k);
        }
        assert(last_field(fields, "label"@) == Some(FieldView::Text(a.label@)));
        assert(last_field(fields, "ttl_s"@) == Some(ttl));
        assert(last_field(fields, "created_by"@) == text_opt(a.created_by));
    }
}

/// The plaintext token of the server's answer, which must be there.
pub fn response_token(resp: &serde_json::Value) -> (res: Result<String, CommandError>)
    ensures
        match res {
            Ok(t) => json_str_member(*resp, "token"@) == Some(t@),
            Err(e) => json_str_member(*resp, "token"@) is None && e@ == CommandErrorView::MissingToken,
        },
{
    match str_member(resp, "token") {
        Some(t) => Ok(t),
        None => Err(CommandError::MissingToken),
    }
}

/// Where a freshly minted plaintext token goes.
#[derive(Debug, Clone, Copy, PartialEq, Eq, Structural)]
pub enum TokenDisposal {
    /// Written to the `--save` file; metadata printed, token not echoed.
    SaveToFile,
    /// The whole answer printed as JSON.
    EmitJson,
    /// Metadata printed, then the token on stdout; `warn` adds the
    /// scrollback warning.
    PrintToStdout { warn: bool },
    /// Metadata printed, token withheld, the command fails.
    Withhold,
}

/// Where the token goes: `--save` always wins, then `--output json`; in a
/// table the token is printed only with `--show` or when stdout is not a
/// terminal.
pub open spec fn token_disposal_of(
    save: bool,
    output: OutputFormat,
    show: bool,
    stdout_is_terminal: bool,
) -> TokenDisposal {
    if save {
        TokenDisposal::SaveToFile
    } else if output == OutputFormat::Json {
        TokenDisposal::EmitJson
    } else if show || !stdout_is_terminal {
        TokenDisposal::PrintToStdout { warn: show }
    } else {
        TokenDisposal::Withhold
    }
}

/// Decides where the plaintext token of a new PAT goes.
pub fn token_disposal(a: &CreateArgs, output: OutputFormat, stdout_is_terminal: bool) -> (res:
    TokenDisposal)
    ensures
        res == token_disposal_of(a.save is Some, output, a.show, stdout_is_terminal),
{
    if a.save.is_some() {
        TokenDisposal::SaveToFile
    } else if output == OutputFormat::Json {
        TokenDisposal::EmitJson
    } else if a.show || !stdout_is_terminal {
        TokenDisposal::PrintToStdout { warn: a.show }
    } else {
        TokenDisposal::Withhold
    }
}

/// Law: in table output, the plaintext token reaches a terminal only when
/// the operator asked with `--show`, and `--save` keeps it off stdout.
pub proof fn lemma_plaintext_reaches_terminal_only_with_show(
    save: bool,
    show: bool,
    stdout_is_terminal: bool,
)
    ensures
        (token_disposal_of(save, OutputFormat::Table, show, stdout_is_terminal) is PrintToStdout
            && stdout_is_terminal) ==> show,
        save ==> token_disposal_of(save, OutputFormat::Table, show, stdout_is_terminal)
            == TokenDisposal::SaveToFile,
        save ==> token_disposal_of(save, OutputFormat::Json, show, stdout_is_terminal)
            == TokenDisposal::SaveToFile,
{
}

/// Law: where a new token goes, for every combination of flags: `--save`
/// wins over everything; else `--output json` prints the whole answer; else
/// the token is printed on stdout when `--show` is given (with the
/// scrollback warning) or when stdout is not a terminal (without it); on a
/// terminal without `--show` it is withheld.
pub proof fn lemma_token_disposal_cases(
    save: bool,
    output: OutputFormat,
    show: bool,
    stdout_is_terminal: bool,
)
    ensures
        save ==> token_disposal_of(save, output, show, stdout_is_terminal)
            == TokenDisposal::SaveToFile,
        !save && output == OutputFormat::Json ==> token_disposal_of(
            save,
            output,
            show,
            stdout_is_terminal,
        ) == TokenDisposal::EmitJson,
        !save && output == OutputFormat::Table && show ==> token_disposal_of(
            save,
            output,
            show,
            stdout_is_terminal,
        ) == (TokenDisposal::PrintToStdout { warn: true }),
        !save && output == OutputFormat::Table && !show && !stdout_is_terminal
            ==> token_disposal_of(save, output, show, stdout_is_terminal)
            == (TokenDisposal::PrintToStdout { warn: false }),
        !save && output == OutputFormat::Table && !show && stdout_is_terminal ==> token_disposal_of(
            save,
            output,
            show,
            stdout_is_terminal,
        ) == TokenDisposal::Withhold,
{
}

/// One metadata line: the label, then the string member or `-`.
pub open spec fn metadata_line_of(label: Seq<char>, resp: serde_json::Value, key: Seq<char>) -> Seq<
    char,
> {
    label + match json_str_member(resp, key) {
        Some(s) => s,
        None => "-"@,
    }
}

/// Law: a metadata line is its label followed by the string member it
/// names, or by `-` when the answer has no such string.
pub proof fn lemma_metadata_line(label: Seq<char>, resp: serde_json::Value, key: Seq<char>)
    ensures
        json_str_member(resp, key) matches Some(s) ==> metadata_line_of(label, resp, key) == label
            + s,
        json_str_member(resp, key) is None ==> metadata_line_of(label, resp, key) == label + "-"@,
{
}

fn metadata_line(label: &str, resp: &serde_json::Value, key: &str) -> (res: String)
    ensures
        res@ == metadata_line_of(label@, *resp, key@),
{
    match str_member(resp, key) {
        Some(s) => concat2(label, s.as_str()),
        None => concat2(label, "-"),
    }
}

/// The metadata lines printed for a new PAT (never the token itself).
pub fn metadata_lines(resp: &serde_json::Value) -> (res: Vec<String>)
    ensures
        res@.len() == 5,
        res@[0]@ == metadata_line_of("id        : "@, *resp, "id"@),
        res@[1]@ == metadata_line_of("label     : "@, *resp, "label"@),
        res@[2]@ == metadata_line_of("prefix    : "@, *resp, "prefix"@),
        res@[3]@ == metadata_line_of("created   : "@, *resp, "created_at"@),
        res@[4]@ == metadata_line_of("expires   : "@, *resp, "expires_at"@),
{
    let mut res: Vec<String> = Vec::new();
    res.push(metadata_line("id        : ", resp, "id"));
    res.push(metadata_line("label     : ", resp, "label"));
    res.push(metadata_line("prefix    : ", resp, "prefix"));
    res.push(metadata_line("created   : ", resp, "created_at"));
    res.push(metadata_line("expires   : ", resp, "expires_at"));
    res
}

/// `GET /pats` (admin).
pub fn list_request() -> (res: Request)
    ensures
        res@ == plain_request(Method::Get, "/pats"@, Auth::Admin),
{
    simple_request(Method::Get, String::from_str("/pats"), Auth::Admin)
}

/// The columns of the PAT list table.
pub fn list_columns() -> (res: Vec<&'static str>)
    ensures
        res@ == seq![
            "id",
            "label",
            "prefix",
            "created_by",
            "created_at",
            "last_used_at",
            "expires_at",
            "expired",
            "revoked_at",
        ],
{
    vec![
        "id",
        "label",
        "prefix",
        "created_by",
        "created_at",
        "last_used_at",
        "expires_at",
        "expired",
        "revoked_at",
    ]
}

/// `DELETE /pats/{id}` (admin).
pub fn revoke_request(a: &RevokeArgs) -> (res: Request)
    ensures
        res@ == plain_request(Method::Delete, "/pats/"@ + url_encoded(a.id@), Auth::Admin),
{
    let path = segment_path("/pats/", a.id.as_str(), "");
    proof {
        reveal_strlit("");
        assert(path@ =~= "/pats/"@ + url_encoded(a.id@));
    }
    simple_request(Method::Delete, path, Auth::Admin)
}

} // verus!
