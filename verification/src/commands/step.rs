//! `dyt step ...` — create and update steps inside a run.
use vstd::prelude::*;

use crate::client::Auth;
use crate::commands::{
    opt_json_flag, opt_json_flag_of, opt_json_result_view, segment_path, CommandError,
    CommandErrorView,
};
use crate::commands::run::request_result_view;
use crate::request::{
    body_request, fields_view, json_request, opt_int_field, opt_json_field, opt_text_field,
    push_field, push_opt_int, push_opt_json, push_opt_text, text_field, Field, FieldView, Method,
    Request, RequestView,
};
use crate::json::parsed_json;
use crate::request::{
    json_opt, last_field, lemma_last_field_concat, lemma_last_field_opt_json,
    lemma_last_field_opt_text, text_opt,
};
use crate::text::concat2;
use vstd::utf8::encode_utf8;
use crate::url::{enc_path, url_encoded};

verus! {

#[derive(Debug)]
pub struct StepArgs {
    pub action: StepAction,
}

#[derive(Debug)]
pub enum StepAction {
    /// Create a step under a run. Requires --run-token.
    Create(CreateArgs),
    /// Update an existing step. Requires --run-token.
    Update(UpdateArgs),
}

#[derive(Debug, Clone)]
pub struct CreateArgs {
    /// Run id.
    pub run_id: String,
    /// Step name.
    pub name: String,
    /// Order index (default: server-assigned next).
    pub sort_order: Option<i64>,
}

#[derive(Debug, Clone)]
pub struct UpdateArgs {
    pub run_id: String,
    pub step_id: String,
    pub status: Option<String>,
    pub message: Option<String>,
    /// Inline JSON object stored as the step checkpoint. Pass `null` (literal) to clear.
    pub checkpoint: Option<String>,
}

/// `POST /runs/{run_id}/steps` with the name and optional order.
pub fn create_request(a: &CreateArgs) -> (res: Request)
    ensures
        res@ == body_request(
            Method::Post,
            "/runs/"@ + url_encoded(a.run_id@) + "/steps"@,
            Auth::Run,
            None,
            seq![("name"@, FieldView::Text(a.name@))] + opt_int_field("sort_order"@, a.sort_order),
        ),
{
    let mut fields: Vec<Field> = Vec::new();
    push_field(&mut fields, text_field("name", a.name.clone()));
    push_opt_int(&mut fields, "sort_order", a.sort_order);
    assert(fields_view(fields@) =~= seq![("name"@, FieldView::Text(a.name@))] + opt_int_field(
        "sort_order"@,
        a.sort_order,
    ));
    json_request(
        Method::Post,
        segment_path("/runs/", a.run_id.as_str(), "/steps"),
        Auth::Run,
        None,
        fields,
    )
}

/// The path of one step.
pub open spec fn step_path_of(run_id: Seq<char>, step_id: Seq<char>) -> Seq<char> {
    "/runs/"@ + url_encoded(run_id) + "/steps/"@ + url_encoded(step_id)
}

/// `PATCH /runs/{run_id}/steps/{step_id}` with the fields given; refused when
/// the checkpoint is not JSON or when no field is given at all.
pub open spec fn update_request_of(a: UpdateArgs) -> Result<RequestView, CommandErrorView> {
    match opt_json_flag_of("--checkpoint"@, a.checkpoint) {
        Err(e) => Err(e),
        Ok(checkpoint) => {
            let fields = opt_text_field("status"@, a.status) + opt_text_field("message"@, a.message)
                + opt_json_field("checkpoint"@, checkpoint);
            if fields.len() == 0 {
                Err(CommandErrorView::NoStepFields)
            } else {
                Ok(
                    body_request(
                        Method::Patch,
                        step_path_of(a.run_id@, a.step_id@),
                        Auth::Run,
                        None,
                        fields,
                    ),
                )
            }
        },
    }
}

/// The request that updates a step.
pub fn update_request(a: &UpdateArgs) -> (res: Result<Request, CommandError>)
    ensures
        request_result_view(res) == update_request_of(*a),
{
    let checkpoint = match opt_json_flag("--checkpoint", &a.checkpoint) {
        Ok(c) => c,
        Err(e) => return Err(e),
    };
    let mut fields: Vec<Field> = Vec::new();
    push_opt_text(&mut fields, "status", a.status.clone());
    push_opt_text(&mut fields, "message", a.message.clone());
    push_opt_json(&mut fields, "checkpoint", checkpoint);
    assert(fields_view(fields@) =~= opt_text_field("status"@, a.status) + opt_text_field(
        "message"@,
        a.message,
    ) + opt_json_field("checkpoint"@, checkpoint));
    if fields.len() == 0 {
        return Err(CommandError::NoStepFields);
    }
    let mut path = segment_path("/runs/", a.run_id.as_str(), "/steps/");
    let sid = enc_path(a.step_id.as_str());
    path.append(sid.as_str());
    Ok(json_request(Method::Patch, path, Auth::Run, None, fields))
}

/// Law: a step update is refused when `--checkpoint` is not JSON (with the
/// parser's explanation), and for want of fields exactly when none of
/// `--status`, `--message` and `--checkpoint` is given. Otherwise it is a
/// `PATCH /runs/{run}/steps/{step}` with the run token whose body sets every
/// flag that is given under its own name (the checkpoint as the JSON it
/// parses to) and nothing else.
pub proof fn lemma_step_update_sends_every_field(a: UpdateArgs)
    ensures
        a.checkpoint matches Some(c) ==> (parsed_json(encode_utf8(c@)) matches Err(d)
            ==> update_request_of(a) == Err::<RequestView, CommandErrorView>(
            CommandErrorView::InvalidJson { flag: "--checkpoint"@, input: c@, detail: d },
        )),
        update_request_of(a) == Err::<RequestView, CommandErrorView>(CommandErrorView::NoStepFields)
            <==> (a.status is None && a.message is None && a.checkpoint is None),
        update_request_of(a) is Ok <==> {
            &&& (a.status is Some || a.message is Some || a.checkpoint is Some)
            &&& (a.checkpoint matches Some(c) ==> parsed_json(encode_utf8(c@)) is Ok)
        },
        update_request_of(a) matches Ok(r) ==> {
            &&& r.method == Method::Patch
            &&& r.path == "/runs/"@ + url_encoded(a.run_id@) + "/steps/"@ + url_encoded(a.step_id@)
            &&& r.auth == Auth::Run
            &&& r.handoff_token is None
            &&& r.body matches Some(b) && {
                &&& b.base is None
                &&& last_field(b.fields, "status"@) == text_opt(a.status)
                &&& last_field(b.fields, "message"@) == text_opt(a.message)
                &&& (a.checkpoint is None ==> last_field(b.fields, "checkpoint"@) is None)
                &&& (a.checkpoint matches Some(c) ==> (parsed_json(encode_utf8(c@)) matches Ok(v)
                    && last_field(b.fields, "checkpoint"@) == Some(FieldView::Json(v))))
                &&& forall|k: Seq<char>|
                    k != "status"@ && k != "message"@ && k != "checkpoint"@
                        ==> #[trigger] last_field(b.fields, k) is None
            }
        },
{
    reveal_strlit("status");
    reveal_strlit("message");
    reveal_strlit("checkpoint");
    // The three names differ in their first character.
    assert("status"@[0] == 's' && "message"@[0] == 'm' && "checkpoint"@[0] == 'c');
    match opt_json_flag_of("--checkpoint"@, a.checkpoint) {
        Err(_) => {},
        Ok(checkpoint) => {
            let fs = opt_text_field("status"@, a.status);
            let fm = opt_text_field("message"@, a.message);
            let fc = opt_json_field("checkpoint"@, checkpoint);
            assert forall|k: Seq<char>|
                #[trigger] last_field(fs + fm + fc, k) == if k == "checkpoint"@ {
                    json_opt(checkpoint)
                } else if k == "message"@ {
                    text_opt(a.message)
                } else if k == "status"@ {
                    text_opt(a.status)
                } else {
                    None
                } by {
                lemma_last_field_concat(fs + fm, fc, k);
                lemma_last_field_concat(fs, fm, k);
                lemma_last_field_opt_text("status"@, a.status, k);
                lemma_last_field_opt_text("message"@, a.message, k);
                lemma_last_field_opt_json("checkpoint"@, checkpoint, k);
            }
            assert(last_field(fs + fm + fc, "status"@) == text_opt(a.status));
            assert(last_field(fs + fm + fc, "message"@) == text_opt(a.message));
            assert(last_field(fs + fm + fc, "checkpoint"@) == json_opt(checkpoint));
        },
    }
}

} // verus!
