//! The subcommands: their arguments, the requests they send and the
//! decisions they take around those requests.
use vstd::prelude::*;
use vstd::utf8::*;

use crate::json::{parse_json, parsed_json};
use crate::text::concat2;
use crate::url::{enc_query, url_encoded};

pub mod auth;
pub mod config;
pub mod handoff;
pub mod notify;
pub mod overview;
pub mod pat;
pub mod run;
pub mod sla;
pub mod step;
pub mod system;
pub mod workflow;

verus! {

/// `std::path::PathBuf`, carried through unchanged (files are read and
/// written by the caller).
#[verifier::external_type_specification]
#[verifier::external_body]
pub struct ExPathBuf(std::path::PathBuf);

/// The text of a file the caller read for a command, with the path as it is
/// displayed in messages.
#[derive(Debug, Clone)]
pub struct FileText {
    pub path: String,
    pub text: String,
}

/// Why a command refused to send its request.
#[derive(Debug, Clone)]
pub enum CommandError {
    /// A flag's value is not JSON; `detail` is the parser's explanation.
    InvalidJson { flag: String, input: String, detail: String },
    /// A file does not hold JSON; `detail` is the parser's explanation.
    InvalidJsonFile { path: String, detail: String },
    /// The `--from-file` body is JSON but not an object.
    NotAnObject,
    /// `--continue-from` without a handoff token.
    MissingHandoffToken,
    /// The handoff token is not a valid header value.
    BadHandoffToken,
    /// `--expected-duration-s` is negative.
    NegativeExpectedDuration,
    /// `--heartbeat-grace-s` is negative.
    NegativeHeartbeatGrace,
    /// A step update without any field.
    NoStepFields,
    /// A notification update without any field.
    NoNotificationFields,
    /// `--ttl-days` is zero or negative.
    TtlNotPositive,
    /// The server's answer lacks the `token` string.
    MissingToken,
    /// An empty (or all-whitespace) token.
    EmptyToken,
    /// An empty (or all-whitespace) value.
    EmptyValue,
}

/// The view of a [`CommandError`].
pub enum CommandErrorView {
    InvalidJson { flag: Seq<char>, input: Seq<char>, detail: Seq<char> },
    InvalidJsonFile { path: Seq<char>, detail: Seq<char> },
    NotAnObject,
    MissingHandoffToken,
    BadHandoffToken,
    NegativeExpectedDuration,
    NegativeHeartbeatGrace,
    NoStepFields,
    NoNotificationFields,
    TtlNotPositive,
    MissingToken,
    EmptyToken,
    EmptyValue,
}

impl View for CommandError {
    type V = CommandErrorView;

    open spec fn view(&self) -> CommandErrorView {
        match self {
            CommandError::InvalidJson { flag, input, detail } => CommandErrorView::InvalidJson {
                flag: flag@,
                input: input@,
                detail: detail@,
            },
            CommandError::InvalidJsonFile { path, detail } => CommandErrorView::InvalidJsonFile {
                path: path@,
                detail: detail@,
            },
            CommandError::NotAnObject => CommandErrorView::NotAnObject,
            CommandError::MissingHandoffToken => CommandErrorView::MissingHandoffToken,
            CommandError::BadHandoffToken => CommandErrorView::BadHandoffToken,
            CommandError::NegativeExpectedDuration => CommandErrorView::NegativeExpectedDuration,
            CommandError::NegativeHeartbeatGrace => CommandErrorView::NegativeHeartbeatGrace,
            CommandError::NoStepFields => CommandErrorView::NoStepFields,
            CommandError::NoNotificationFields => CommandErrorView::NoNotificationFields,
            CommandError::TtlNotPositive => CommandErrorView::TtlNotPositive,
            CommandError::MissingToken => CommandErrorView::MissingToken,
            CommandError::EmptyToken => CommandErrorView::EmptyToken,
            CommandError::EmptyValue => CommandErrorView::EmptyValue,
        }
    }
}

/// The message of an error, before the parser's explanation (which
/// follows after `: ` for the two JSON errors).
pub open spec fn command_error_text(e: CommandErrorView) -> Seq<char> {
    match e {
        CommandErrorView::InvalidJson { flag, input, .. } => flag + " must be JSON: "@ + input,
        CommandErrorView::InvalidJsonFile { path, .. } => "parsing "@ + path + " as JSON"@,
        CommandErrorView::NotAnObject => "--from-file must be a JSON object"@,
        CommandErrorView::MissingHandoffToken => "--continue-from requires --handoff-token"@,
        CommandErrorView::BadHandoffToken => "bad X-Handoff-Token value"@,
        CommandErrorView::NegativeExpectedDuration => "--expected-duration-s must be non-negative"@,
        CommandErrorView::NegativeHeartbeatGrace => "--heartbeat-grace-s must be non-negative"@,
        CommandErrorView::NoStepFields => "no fields provided for update — pass at least one of --status, --message, or --checkpoint"@,
        CommandErrorView::NoNotificationFields => "no mutable fields provided — pass at least one of --status, --retry-count, --last-error, or --mark-delivered"@,
        CommandErrorView::TtlNotPositive => "--ttl-days must be positive (PATs cannot be issued without an expiry)"@,
        CommandErrorView::MissingToken => "server response missing `token` field"@,
        CommandErrorView::EmptyToken => "empty token"@,
        CommandErrorView::EmptyValue => "empty value"@,
    }
}

/// Law: the message of each refusal: the JSON ones quote the flag and its
/// value, or the file; the others say what was missing or wrong.
pub proof fn lemma_command_error_messages(
    flag: Seq<char>,
    input: Seq<char>,
    path: Seq<char>,
    detail: Seq<char>,
)
    ensures
        command_error_text((CommandErrorView::InvalidJson { flag, input, detail })) == flag
            + " must be JSON: "@ + input,
        command_error_text((CommandErrorView::InvalidJsonFile { path, detail })) == "parsing "@
            + path + " as JSON"@,
        command_error_text(CommandErrorView::NotAnObject) == "--from-file must be a JSON object"@,
        command_error_text(CommandErrorView::MissingHandoffToken) == "--continue-from requires --handoff-token"@,
        command_error_text(CommandErrorView::BadHandoffToken) == "bad X-Handoff-Token value"@,
        command_error_text(CommandErrorView::NegativeExpectedDuration) == "--expected-duration-s must be non-negative"@,
        command_error_text(CommandErrorView::NegativeHeartbeatGrace) == "--heartbeat-grace-s must be non-negative"@,
        command_error_text(CommandErrorView::NoStepFields) == "no fields provided for update — pass at least one of --status, --message, or --checkpoint"@,
        command_error_text(CommandErrorView::NoNotificationFields) == "no mutable fields provided — pass at least one of --status, --retry-count, --last-error, or --mark-delivered"@,
        command_error_text(CommandErrorView::TtlNotPositive) == "--ttl-days must be positive (PATs cannot be issued without an expiry)"@,
        command_error_text(CommandErrorView::MissingToken) == "server response missing `token` field"@,
        command_error_text(CommandErrorView::EmptyToken) == "empty token"@,
        command_error_text(CommandErrorView::EmptyValue) == "empty value"@,
{
}

impl CommandError {
    /// The headline of the error (the explanation it was caused by, if any,
    /// is in [`CommandError::cause`]).
    pub fn headline(&self) -> (res: String)
        ensures
            res@ == command_error_text(self@),
    {
        match self {
            CommandError::InvalidJson { flag, input, .. } => {
                let mut res = concat2(flag.as_str(), " must be JSON: ");
                res.append(input.as_str());
                res
            },
            CommandError::InvalidJsonFile { path, .. } => {
                let mut res = concat2("parsing ", path.as_str());
                res.append(" as JSON");
                res
            },
            CommandError::NotAnObject => String::from_str("--from-file must be a JSON object"),
            CommandError::MissingHandoffToken => String::from_str(
                "--continue-from requires --handoff-token",
            ),
            CommandError::BadHandoffToken => String::from_str("bad X-Handoff-Token value"),
            CommandError::NegativeExpectedDuration => String::from_str(
                "--expected-duration-s must be non-negative",
            ),
            CommandError::NegativeHeartbeatGrace => String::from_str(
                "--heartbeat-grace-s must be non-negative",
            ),
            CommandError::NoStepFields => String::from_str(
                "no fields provided for update — pass at least one of --status, --message, or --checkpoint",
            ),
            CommandError::NoNotificationFields => String::from_str(
                "no mutable fields provided — pass at least one of --status, --retry-count, --last-error, or --mark-delivered",
            ),
            CommandError::TtlNotPositive => String::from_str(
                "--ttl-days must be positive (PATs cannot be issued without an expiry)",
            ),
            CommandError::MissingToken => String::from_str("server response missing `token` field"),
            CommandError::EmptyToken => String::from_str("empty token"),
            CommandError::EmptyValue => String::from_str("empty value"),
        }
    }

    /// The explanation the error was caused by, if any.
    pub fn cause(&self) -> (res: Option<String>)
        ensures
            match *self {
                CommandError::InvalidJson { detail, .. } => res == Some(detail),
                CommandError::InvalidJsonFile { detail, .. } => res == Some(detail),
                CommandError::BadHandoffToken => res.deep_view() == Some(
                    "failed to parse header value"@,
                ),
                _ => res is None,
            },
    {
        match self {
            CommandError::InvalidJson { detail, .. } => Some(detail.clone()),
            CommandError::InvalidJsonFile { detail, .. } => Some(detail.clone()),
            CommandError::BadHandoffToken => Some(String::from_str("failed to parse header value")),
            _ => None,
        }
    }
}

// ---------------------------------------------------------------------------
// JSON given on the command line
// ---------------------------------------------------------------------------

/// The value the user passed as JSON text for `flag`, or the error.
pub open spec fn json_flag_of(flag: Seq<char>, input: Seq<char>) -> Result<
    serde_json::Value,
    CommandErrorView,
> {
    match parsed_json(encode_utf8(input)) {
        Ok(v) => Ok(v),
        Err(detail) => Err(CommandErrorView::InvalidJson { flag, input, detail }),
    }
}

/// The view of a JSON parse result.
pub open spec fn json_result_view(r: Result<serde_json::Value, CommandError>) -> Result<
    serde_json::Value,
    CommandErrorView,
> {
    match r {
        Ok(v) => Ok(v),
        Err(e) => Err(e@),
    }
}

/// Parses the JSON text `input` given for `flag`.
pub fn json_flag(flag: &str, input: &String) -> (res: Result<serde_json::Value, CommandError>)
    ensures
        json_result_view(res) == json_flag_of(flag@, input@),
{
    match parse_json(input.as_str().as_bytes()) {
        Ok(v) => Ok(v),
        Err(detail) => Err(
            CommandError::InvalidJson {
                flag: String::from_str(flag),
                input: input.clone(),
                detail,
            },
        ),
    }
}

/// An optional JSON flag: absent stays absent, present is parsed.
pub open spec fn opt_json_flag_of(flag: Seq<char>, input: Option<String>) -> Result<
    Option<serde_json::Value>,
    CommandErrorView,
> {
    match input {
        Some(s) => match json_flag_of(flag, s@) {
            Ok(v) => Ok(Some(v)),
            Err(e) => Err(e),
        },
        None => Ok(None),
    }
}

/// The view of an optional JSON parse result.
pub open spec fn opt_json_result_view(r: Result<Option<serde_json::Value>, CommandError>) -> Result<
    Option<serde_json::Value>,
    CommandErrorView,
> {
    match r {
        Ok(v) => Ok(v),
        Err(e) => Err(e@),
    }
}

/// Parses an optional JSON flag.
pub fn opt_json_flag(flag: &str, input: &Option<String>) -> (res: Result<
    Option<serde_json::Value>,
    CommandError,
>)
    ensures
        opt_json_result_view(res) == opt_json_flag_of(flag@, *input),
{
    match input {
        Some(s) => match json_flag(flag, s) {
            Ok(v) => Ok(Some(v)),
            Err(e) => Err(e),
        },
        None => Ok(None),
    }
}

/// The value held in a file the user named, or the error.
pub open spec fn json_file_of(file: FileText) -> Result<serde_json::Value, CommandErrorView> {
    match parsed_json(encode_utf8(file.text@)) {
        Ok(v) => Ok(v),
        Err(detail) => Err(CommandErrorView::InvalidJsonFile { path: file.path@, detail }),
    }
}

/// Parses the JSON held in a file.
pub fn json_file(file: &FileText) -> (res: Result<serde_json::Value, CommandError>)
    ensures
        json_result_view(res) == json_file_of(*file),
{
    match parse_json(file.text.as_str().as_bytes()) {
        Ok(v) => Ok(v),
        Err(detail) => Err(CommandError::InvalidJsonFile { path: file.path.clone(), detail }),
    }
}

// ---------------------------------------------------------------------------
// Paths and query strings
// ---------------------------------------------------------------------------

/// `prefix` followed by the encoded value, when the value is set.
pub open spec fn opt_param(prefix: Seq<char>, value: Option<String>) -> Seq<char> {
    match value {
        Some(v) => prefix + url_encoded(v@),
        None => Seq::empty(),
    }
}

/// Appends `prefix` and the encoded value to `path` when the value is set.
pub fn push_opt_param(path: &mut String, prefix: &str, value: &Option<String>)
    ensures
        final(path)@ == old(path)@ + opt_param(prefix@, *value),
{
    match value {
        Some(v) => {
            path.append(prefix);
            let e = enc_query(v.as_str());
            path.append(e.as_str());
        },
        None => {
            assert(old(path)@ + Seq::<char>::empty() =~= old(path)@);
        },
    }
}

/// `head`, the encoded segment, then `tail`.
pub fn segment_path(head: &str, segment: &str, tail: &str) -> (res: String)
    ensures
        res@ == head@ + url_encoded(segment@) + tail@,
{
    let e = crate::url::enc_path(segment);
    let mut res = concat2(head, e.as_str());
    res.append(tail);
    res
}

/// `item` stands in `path` as a query item: right after the `?` or an `&`.
pub open spec fn has_query_item(path: Seq<char>, item: Seq<char>) -> bool {
    exists|p: int|
        1 <= p && p + item.len() <= path.len() && #[trigger] path.subrange(p, p + item.len())
            == item && (path[p - 1] == '?' || path[p - 1] == '&')
}

/// A parameter that is set stands in the path as a query item: `prefix` is
/// `&` followed by `name`, and what follows it is the encoded value.
pub proof fn lemma_param_is_query_item(
    pre: Seq<char>,
    prefix: Seq<char>,
    name: Seq<char>,
    v: Option<String>,
    post: Seq<char>,
)
    requires
        prefix == seq!['&'] + name,
    ensures
        v matches Some(s) ==> has_query_item(pre + opt_param(prefix, v) + post, name + url_encoded(s@)),
{
    if let Some(s) = v {
        let path = pre + opt_param(prefix, v) + post;
        let item = name + url_encoded(s@);
        let p: int = pre.len() as int + 1;
        assert(path.subrange(p, p + item.len()) =~= item);
        assert(path[p - 1] == '&');
        assert(has_query_item(path, item));
    }
}

} // verus!
