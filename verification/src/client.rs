//! Everything the HTTP client decides: which URL a request path goes to, which
//! `Authorization` header it carries, and what a response's status and body
//! mean. Sending the request is left to the caller.
use vstd::prelude::*;
use vstd::utf8::*;
use base64::Engine;

use crate::config::{api_base_of, ResolvedConfig};
use crate::json::{json_str_member, parse_json, parsed_json, str_member};
use crate::text::{concat2, concat3, nat_decimal, trim, trimmed, u16_decimal, starts_with};

verus! {

/// Which credential a request presents.
#[derive(Debug, Clone, Copy, PartialEq, Eq, Structural)]
pub enum Auth {
    /// The admin bearer token (required).
    Admin,
    /// The per-run bearer token (required).
    Run,
    /// Basic credentials when configured, nothing otherwise.
    ReadOptional,
    /// No credentials.
    Unauthenticated,
}

/// Why no `Authorization` header could be produced.
#[derive(Debug, Clone, Copy, PartialEq, Eq, Structural)]
pub enum ClientError {
    AdminTokenRequired,
    RunTokenRequired,
    InvalidHeaderValue,
}

/// The text shown for a [`ClientError`].
pub open spec fn client_error_text(e: ClientError) -> Seq<char> {
    match e {
        ClientError::AdminTokenRequired => "admin token required — set DONEYET_ADMIN_TOKEN, pass --admin-token, or run `dyt login`"@,
        ClientError::RunTokenRequired => "run token required — pass --run-token or set DONEYET_RUN_TOKEN"@,
        ClientError::InvalidHeaderValue => "failed to parse header value"@,
    }
}

/// Law: the messages of the client's refusals name what to do about them.
pub proof fn lemma_client_error_messages()
    ensures
        client_error_text(ClientError::AdminTokenRequired)
            == "admin token required — set DONEYET_ADMIN_TOKEN, pass --admin-token, or run `dyt login`"@,
        client_error_text(ClientError::RunTokenRequired)
            == "run token required — pass --run-token or set DONEYET_RUN_TOKEN"@,
        client_error_text(ClientError::InvalidHeaderValue) == "failed to parse header value"@,
{
}

impl ClientError {
    /// The message shown to the user.
    pub fn message(&self) -> (res: String)
        ensures
            res@ == client_error_text(*self),
    {
        match self {
            ClientError::AdminTokenRequired => String::from_str(
                "admin token required — set DONEYET_ADMIN_TOKEN, pass --admin-token, or run `dyt login`",
            ),
            ClientError::RunTokenRequired => String::from_str(
                "run token required — pass --run-token or set DONEYET_RUN_TOKEN",
            ),
            ClientError::InvalidHeaderValue => String::from_str("failed to parse header value"),
        }
    }
}

// ---------------------------------------------------------------------------
// Header values and Base64
// ---------------------------------------------------------------------------

/// Whether `s` is accepted as an HTTP header value: every byte of its UTF-8
/// encoding is a tab, or at least 32 and not 127. Bytes of multi-byte
/// characters are all at least 128, so the rule reads on characters alone.
pub open spec fn is_header_text(s: Seq<char>) -> bool {
    forall|i: int|
        0 <= i < s.len() ==> (#[trigger] s[i] == '\t' || ((s[i] as u32) >= 32 && (s[i] as u32)
            != 127))
}

/// `reqwest::header::HeaderValue::from_str(s).is_ok()`: every byte must be a
/// tab or at least 32 and not 127.
#[verifier::external_body]
pub(crate) fn header_value_ok(s: &str) -> (res: bool)
    ensures
        res == is_header_text(s@),
{
    reqwest::header::HeaderValue::from_str(s).is_ok()
}

/// The character of the standard Base64 alphabet for `v` in `0..64`.
pub open spec fn base64_char(v: int) -> char {
    if v < 26 {
        (0x41 + v) as char
    } else if v < 52 {
        (0x61 + v - 26) as char
    } else if v < 62 {
        (0x30 + v - 52) as char
    } else if v == 62 {
        '+'
    } else {
        '/'
    }
}

/// Standard Base64 (RFC 4648 alphabet, `=` padding) of `b`.
pub open spec fn base64_standard(b: Seq<u8>) -> Seq<char>
    decreases b.len(),
{
    if b.len() == 0 {
        seq![]
    } else if b.len() == 1 {
        seq![base64_char((b[0] as int) / 4), base64_char(((b[0] as int) % 4) * 16), '=', '=']
    } else if b.len() == 2 {
        seq![
            base64_char((b[0] as int) / 4),
            base64_char(((b[0] as int) % 4) * 16 + (b[1] as int) / 16),
            base64_char(((b[1] as int) % 16) * 4),
            '=',
        ]
    } else {
        seq![
            base64_char((b[0] as int) / 4),
            base64_char(((b[0] as int) % 4) * 16 + (b[1] as int) / 16),
            base64_char(((b[1] as int) % 16) * 4 + (b[2] as int) / 64),
            base64_char((b[2] as int) % 64),
        ] + base64_standard(b.skip(3))
    }
}

/// `base64::engine::general_purpose::STANDARD.encode`: standard alphabet,
/// padded with `=`.
#[verifier::external_body]
fn base64_encode(bytes: &[u8]) -> (res: String)
    ensures
        res@ == base64_standard(bytes@),
{
    base64::engine::general_purpose::STANDARD.encode(bytes)
}

// ---------------------------------------------------------------------------
// Authorization
// ---------------------------------------------------------------------------

/// A header value, refused when it is not valid header text.
pub open spec fn checked_header(v: Seq<char>) -> Result<Option<Seq<char>>, ClientError> {
    if is_header_text(v) {
        Ok(Some(v))
    } else {
        Err(ClientError::InvalidHeaderValue)
    }
}

/// The `Authorization` header a request with `auth` carries under `cfg`.
pub open spec fn authorization_of(cfg: ResolvedConfig, auth: Auth) -> Result<
    Option<Seq<char>>,
    ClientError,
> {
    match auth {
        Auth::Admin => match cfg.admin_token {
            Some(t) => checked_header("Bearer "@ + t@),
            None => Err(ClientError::AdminTokenRequired),
        },
        Auth::Run => match cfg.run_token {
            Some(t) => checked_header("Bearer "@ + t@),
            None => Err(ClientError::RunTokenRequired),
        },
        Auth::ReadOptional => match cfg.read_basic {
            Some(b) => checked_header("Basic "@ + base64_standard(encode_utf8(b@))),
            None => Ok(None),
        },
        Auth::Unauthenticated => Ok(None),
    }
}

/// The view of an authorization result.
pub open spec fn header_result_view(r: Result<Option<String>, ClientError>) -> Result<
    Option<Seq<char>>,
    ClientError,
> {
    match r {
        Ok(Some(s)) => Ok(Some(s@)),
        Ok(None) => Ok(None),
        Err(e) => Err(e),
    }
}

fn checked_header_value(v: String) -> (res: Result<Option<String>, ClientError>)
    ensures
        header_result_view(res) == checked_header(v@),
{
    if header_value_ok(v.as_str()) {
        Ok(Some(v))
    } else {
        Err(ClientError::InvalidHeaderValue)
    }
}

// ---------------------------------------------------------------------------
// The client
// ---------------------------------------------------------------------------

/// The parts of the API client that decide: the resolved configuration and
/// the API base URL derived from it.
pub struct Client {
    base: String,
    cfg: ResolvedConfig,
}

impl Client {
    #[verifier::type_invariant]
    spec fn base_matches(self) -> bool {
        self.base@ == api_base_of(self.cfg.api_url@)
    }

    /// The configuration the client was made with.
    pub closed spec fn cfg_spec(&self) -> ResolvedConfig {
        self.cfg
    }

    /// A client for `cfg`.
    pub fn new(cfg: ResolvedConfig) -> (res: Self)
        ensures
            res.cfg_spec() == cfg,
    {
        let base = cfg.api_base();
        Client { base, cfg }
    }

    /// The configuration the client was made with.
    pub fn config(&self) -> (res: &ResolvedConfig)
        ensures
            *res == self.cfg_spec(),
    {
        &self.cfg
    }

    /// `path` below the server root.
    pub fn root_url(&self, path: &str) -> (res: String)
        ensures
            res@ == self.cfg_spec().api_url@ + path@,
    {
        concat2(self.cfg.api_url.as_str(), path)
    }

    /// `path` below the API base (`{api_url}/api/v1`).
    pub fn url(&self, path: &str) -> (res: String)
        ensures
            res@ == api_base_of(self.cfg_spec().api_url@) + path@,
    {
        proof {
            use_type_invariant(self);
        }
        concat2(self.base.as_str(), path)
    }

    /// The URL a JSON or bodiless request to `path` goes to: paths already
    /// starting with `/api/` are taken from the server root.
    pub fn request_url(&self, path: &str) -> (res: String)
        ensures
            res@ == request_url_of(self.cfg_spec().api_url@, path@),
    {
        if starts_with(path, "/api/") {
            self.root_url(path)
        } else {
            self.url(path)
        }
    }

    /// The URL a plain-text request to `path` goes to: `/api/`, `/health` and
    /// `/metrics` paths are taken from the server root.
    pub fn text_url(&self, path: &str) -> (res: String)
        ensures
            res@ == text_url_of(self.cfg_spec().api_url@, path@),
    {
        if starts_with(path, "/api/") || starts_with(path, "/health") || starts_with(
            path,
            "/metrics",
        ) {
            self.root_url(path)
        } else {
            self.url(path)
        }
    }

    /// The `Authorization` header value for a request with `auth`, or why
    /// there cannot be one.
    pub fn authorization(&self, auth: Auth) -> (res: Result<Option<String>, ClientError>)
        ensures
            header_result_view(res) == authorization_of(self.cfg_spec(), auth),
    {
        match auth {
            Auth::Admin => match &self.cfg.admin_token {
                Some(t) => checked_header_value(concat2("Bearer ", t.as_str())),
                None => Err(ClientError::AdminTokenRequired),
            },
            Auth::Run => match &self.cfg.run_token {
                Some(t) => checked_header_value(concat2("Bearer ", t.as_str())),
                None => Err(ClientError::RunTokenRequired),
            },
            Auth::ReadOptional => match &self.cfg.read_basic {
                Some(b) => {
                    let encoded = base64_encode(b.as_str().as_bytes());
                    checked_header_value(concat2("Basic ", encoded.as_str()))
                },
                None => Ok(None),
            },
            Auth::Unauthenticated => Ok(None),
        }
    }
}

/// Where a JSON or bodiless request to `path` goes.
pub open spec fn request_url_of(api_url: Seq<char>, path: Seq<char>) -> Seq<char> {
    if "/api/"@.is_prefix_of(path) {
        api_url + path
    } else {
        api_base_of(api_url) + path
    }
}

/// Where a plain-text request to `path` goes.
pub open spec fn text_url_of(api_url: Seq<char>, path: Seq<char>) -> Seq<char> {
    if "/api/"@.is_prefix_of(path) || "/health"@.is_prefix_of(path) || "/metrics"@.is_prefix_of(
        path,
    ) {
        api_url + path
    } else {
        api_base_of(api_url) + path
    }
}

/// Law: requests go below `{api_url}/api/v1`, except paths that already
/// start with `/api/`, which are taken from the server root; plain-text
/// requests to `/health` and `/metrics` go to the server root too, and every
/// other plain-text path goes where a JSON request to it would.
pub proof fn lemma_url_routing(api_url: Seq<char>, path: Seq<char>)
    ensures
        "/api/"@.is_prefix_of(path) ==> request_url_of(api_url, path) == api_url + path,
        !"/api/"@.is_prefix_of(path) ==> request_url_of(api_url, path) == api_url + "/api/v1"@
            + path,
        "/health"@.is_prefix_of(path) || "/metrics"@.is_prefix_of(path) ==> text_url_of(
            api_url,
            path,
        ) == api_url + path,
        !("/health"@.is_prefix_of(path) || "/metrics"@.is_prefix_of(path)) ==> text_url_of(
            api_url,
            path,
        ) == request_url_of(api_url, path),
        api_url.is_prefix_of(request_url_of(api_url, path)),
        api_url.is_prefix_of(text_url_of(api_url, path)),
{
    assert((api_url + "/api/v1"@) + path =~= api_url + ("/api/v1"@ + path));
    assert((api_url + path).subrange(0, api_url.len() as int) =~= api_url);
    assert((api_url + "/api/v1"@ + path).subrange(0, api_url.len() as int) =~= api_url);
}

/// Law: three statuses earn a hint after the error message: 401 about the
/// tokens, 404 about the slug or id, 409 about the resource state; no other
/// status does.
pub proof fn lemma_status_hints(code: u16)
    ensures
        status_hint_of(401) == " — check your admin/run token"@,
        status_hint_of(404) == " — does the slug / id exist?"@,
        status_hint_of(409) == " — the resource state forbids that change"@,
        code != 401 && code != 404 && code != 409 ==> status_hint_of(code).len() == 0,
{
    reveal_strlit("");
}

/// Law: a path below the API base and its absolute `/api/v1/...` form reach
/// the same URL.
pub proof fn lemma_absolute_api_path_same_url(api_url: Seq<char>, path: Seq<char>)
    requires
        !"/api/"@.is_prefix_of(path),
    ensures
        request_url_of(api_url, "/api/v1"@ + path) == request_url_of(api_url, path),
{
    reveal_strlit("/api/");
    reveal_strlit("/api/v1");
    let full = "/api/v1"@ + path;
    assert(full.subrange(0, 5) =~= "/api/"@);
    assert(api_url + full =~= api_base_of(api_url) + path);
}

proof fn lemma_base64_is_header_text(b: Seq<u8>)
    ensures
        is_header_text(base64_standard(b)),
    decreases b.len(),
{
    if b.len() >= 3 {
        lemma_base64_is_header_text(b.skip(3));
        let head = seq![
            base64_char((b[0] as int) / 4),
            base64_char(((b[0] as int) % 4) * 16 + (b[1] as int) / 16),
            base64_char(((b[1] as int) % 16) * 4 + (b[2] as int) / 64),
            base64_char((b[2] as int) % 64),
        ];
        let tail = base64_standard(b.skip(3));
        assert(base64_standard(b) == head + tail);
        assert forall|i: int| 0 <= i < (head + tail).len() implies (#[trigger] (head
            + tail)[i] == '\t' || (((head + tail)[i] as u32) >= 32 && ((head + tail)[i] as u32)
            != 127)) by {
            if i >= head.len() {
                assert((head + tail)[i] == tail[i - head.len()]);
            }
        }
    }
}

/// Law: Basic credentials always make a valid header, so a read with
/// configured credentials (or none) never fails for want of a header.
pub proof fn lemma_read_authorization_never_fails(cfg: ResolvedConfig)
    ensures
        authorization_of(cfg, Auth::ReadOptional) is Ok,
        authorization_of(cfg, Auth::Unauthenticated) == Ok::<Option<Seq<char>>, ClientError>(None),
{
    reveal_strlit("Basic ");
    if let Some(basic) = cfg.read_basic {
        let enc = base64_standard(encode_utf8(basic@));
        lemma_base64_is_header_text(encode_utf8(basic@));
        let v = "Basic "@ + enc;
        assert forall|i: int| 0 <= i < v.len() implies (#[trigger] v[i] == '\t' || ((v[i] as u32)
            >= 32 && (v[i] as u32) != 127)) by {
            if i >= 6 {
                assert(v[i] == enc[i - 6]);
            }
        }
    }
}

/// Law: every tier sends its own credential and no other. An admin request
/// carries `Bearer {admin token}` and fails without one; a run request
/// carries `Bearer {run token}` and fails without one; a read carries
/// `Basic {base64 of user:pass}` when read credentials are set and nothing
/// otherwise; an unauthenticated request carries nothing. A token that is no
/// header value is refused rather than sent.
pub proof fn lemma_each_tier_sends_its_own_credential(cfg: ResolvedConfig)
    ensures
        cfg.admin_token is None ==> authorization_of(cfg, Auth::Admin) == Err::<
            Option<Seq<char>>,
            ClientError,
        >(ClientError::AdminTokenRequired),
        cfg.admin_token matches Some(t) ==> authorization_of(cfg, Auth::Admin) == if is_header_text(
            "Bearer "@ + t@,
        ) {
            Ok::<Option<Seq<char>>, ClientError>(Some("Bearer "@ + t@))
        } else {
            Err(ClientError::InvalidHeaderValue)
        },
        cfg.run_token is None ==> authorization_of(cfg, Auth::Run) == Err::<
            Option<Seq<char>>,
            ClientError,
        >(ClientError::RunTokenRequired),
        cfg.run_token matches Some(t) ==> authorization_of(cfg, Auth::Run) == if is_header_text(
            "Bearer "@ + t@,
        ) {
            Ok::<Option<Seq<char>>, ClientError>(Some("Bearer "@ + t@))
        } else {
            Err(ClientError::InvalidHeaderValue)
        },
        cfg.read_basic is None ==> authorization_of(cfg, Auth::ReadOptional) == Ok::<
            Option<Seq<char>>,
            ClientError,
        >(None),
        cfg.read_basic matches Some(b) ==> authorization_of(cfg, Auth::ReadOptional) == Ok::<
            Option<Seq<char>>,
            ClientError,
        >(Some("Basic "@ + base64_standard(encode_utf8(b@)))),
        authorization_of(cfg, Auth::Unauthenticated) == Ok::<Option<Seq<char>>, ClientError>(None),
{
    lemma_read_authorization_never_fails(cfg);
}

/// Law: a request's credential depends only on the secret of its own tier:
/// two configurations that agree on that secret give every request of the
/// tier the same `Authorization` header (or the same refusal).
pub proof fn lemma_credential_depends_only_on_its_tier(
    cfg: ResolvedConfig,
    other: ResolvedConfig,
    auth: Auth,
)
    requires
        auth == Auth::Admin ==> cfg.admin_token == other.admin_token,
        auth == Auth::Run ==> cfg.run_token == other.run_token,
        auth == Auth::ReadOptional ==> cfg.read_basic == other.read_basic,
    ensures
        authorization_of(cfg, auth) == authorization_of(other, auth),
{
}

// ---------------------------------------------------------------------------
// Responses
// ---------------------------------------------------------------------------

/// The canonical reason phrase of a status code, or `<unknown status code>`.
pub uninterp spec fn status_reason_of(code: u16) -> Seq<char>;

/// How a status code is displayed: `401 Unauthorized`.
pub open spec fn status_line_of(code: u16) -> Seq<char> {
    nat_decimal(code as nat) + " "@ + status_reason_of(code)
}

/// `reqwest::StatusCode`'s `Display`: the code, a space, then the canonical
/// reason phrase (or `<unknown status code>`). `from_u16` accepts 100..=999.
#[verifier::external_body]
fn status_line(code: u16) -> (res: String)
    requires
        100 <= code <= 999,
    ensures
        res@ == nat_decimal(code as nat) + " "@ + status_reason_of(code),
{
    reqwest::StatusCode::from_u16(code).map(|s| s.to_string()).unwrap_or_default()
}

/// Lossy UTF-8 decoding of a byte string.
pub uninterp spec fn utf8_lossy_of(bytes: Seq<u8>) -> Seq<char>;

/// `String::from_utf8_lossy`, owned: valid UTF-8 is decoded as it is; invalid
/// sequences become U+FFFD (what it yields for them is not stated here).
#[verifier::external_body]
fn lossy_text(bytes: &[u8]) -> (res: String)
    ensures
        res@ == utf8_lossy_of(bytes@),
        valid_utf8(bytes@) ==> res@ == decode_utf8(bytes@),
{
    String::from_utf8_lossy(bytes).into_owned()
}

/// Whether a status code is a success (200–299).
pub open spec fn is_success_code(code: u16) -> bool {
    200 <= code < 300
}

/// The hint appended to an HTTP error for some status codes.
pub open spec fn status_hint_of(code: u16) -> Seq<char> {
    if code == 401 {
        " — check your admin/run token"@
    } else if code == 404 {
        " — does the slug / id exist?"@
    } else if code == 409 {
        " — the resource state forbids that change"@
    } else {
        ""@
    }
}

/// The error detail of a failed response: the `error` string of a JSON body
/// (the backend answers `{"error": "..."}`), else the trimmed body text.
pub open spec fn error_detail_of(body: Seq<u8>) -> Seq<char> {
    let fallback = trimmed(utf8_lossy_of(body));
    match parsed_json(body) {
        Ok(v) => match json_str_member(v, "error"@) {
            Some(s) => s,
            None => fallback,
        },
        Err(_) => fallback,
    }
}

/// Law: the detail of a failed response is the `error` string of a JSON
/// body when there is one; otherwise the body's text, trimmed.
pub proof fn lemma_error_detail_prefers_error_member(body: Seq<u8>)
    ensures
        parsed_json(body) matches Ok(v) ==> (json_str_member(v, "error"@) matches Some(s)
            ==> error_detail_of(body) == s),
        parsed_json(body) matches Ok(v) ==> (json_str_member(v, "error"@) is None
            ==> error_detail_of(body) == trimmed(utf8_lossy_of(body))),
        parsed_json(body) is Err ==> error_detail_of(body) == trimmed(utf8_lossy_of(body)),
{
}

/// The message of a failed JSON or bodiless request.
pub open spec fn status_error_text(code: u16, body: Seq<u8>) -> Seq<char> {
    "HTTP "@ + status_line_of(code) + ": "@ + error_detail_of(body) + status_hint_of(code)
}

/// The hint appended to an HTTP error for `code`.
pub fn status_hint(code: u16) -> (res: &'static str)
    ensures
        res@ == status_hint_of(code),
{
    if code == 401 {
        " — check your admin/run token"
    } else if code == 404 {
        " — does the slug / id exist?"
    } else if code == 409 {
        " — the resource state forbids that change"
    } else {
        ""
    }
}

/// The error detail of a failed response body.
pub fn error_detail(body: &[u8]) -> (res: String)
    ensures
        res@ == error_detail_of(body@),
{
    match parse_json(body) {
        Ok(v) => match str_member(&v, "error") {
            Some(s) => s,
            None => trim(lossy_text(body).as_str()),
        },
        Err(_) => trim(lossy_text(body).as_str()),
    }
}

/// `HTTP {status}: {detail}{hint}` for a failed request.
pub fn status_error_message(code: u16, body: &[u8]) -> (res: String)
    requires
        100 <= code <= 999,
    ensures
        res@ == status_error_text(code, body@),
{
    let line = status_line(code);
    let detail = error_detail(body);
    let mut res = concat3("HTTP ", line.as_str(), ": ");
    res.append(detail.as_str());
    res.append(status_hint(code));
    res
}

/// What a JSON or bodiless response amounts to.
#[derive(Debug, Clone)]
pub enum ResponseOutcome {
    /// The request failed; the message to report.
    Failed(String),
    /// Success with an empty body (decoded as JSON `null`).
    Empty,
    /// Success with a body to decode.
    Content,
}

/// The view of a [`ResponseOutcome`].
pub enum OutcomeView {
    Failed(Seq<char>),
    Empty,
    Content,
}

impl View for ResponseOutcome {
    type V = OutcomeView;

    open spec fn view(&self) -> OutcomeView {
        match self {
            ResponseOutcome::Failed(m) => OutcomeView::Failed(m@),
            ResponseOutcome::Empty => OutcomeView::Empty,
            ResponseOutcome::Content => OutcomeView::Content,
        }
    }
}

/// The outcome of a response with status `code` and body `body`.
pub open spec fn outcome_of(code: u16, body: Seq<u8>) -> OutcomeView {
    if !is_success_code(code) {
        OutcomeView::Failed(status_error_text(code, body))
    } else if body.len() == 0 {
        OutcomeView::Empty
    } else {
        OutcomeView::Content
    }
}

/// Classifies a response: failures carry their message; a successful empty
/// body stands for JSON `null`.
pub fn classify_response(code: u16, body: &[u8]) -> (res: ResponseOutcome)
    requires
        100 <= code <= 999,
    ensures
        res@ == outcome_of(code, body@),
        res@ is Failed <==> !(200 <= code < 300),
        200 <= code < 300 ==> (res@ is Empty <==> body@.len() == 0),
        200 <= code < 300 ==> (res@ is Content <==> body@.len() > 0),
        res@ matches OutcomeView::Failed(m) ==> m == "HTTP "@ + status_line_of(code) + ": "@
            + error_detail_of(body@) + status_hint_of(code),
{
    if !(200 <= code && code < 300) {
        ResponseOutcome::Failed(status_error_message(code, body))
    } else if body.len() == 0 {
        ResponseOutcome::Empty
    } else {
        ResponseOutcome::Content
    }
}

/// The message of a failed plain-text request: `{status}: {text}`.
pub open spec fn text_failure_of(code: u16, text: Seq<char>) -> Option<Seq<char>> {
    if is_success_code(code) {
        None
    } else {
        Some(status_line_of(code) + ": "@ + text)
    }
}

/// `None` for a successful plain-text response, the error message otherwise.
pub fn text_failure(code: u16, text: &str) -> (res: Option<String>)
    requires
        100 <= code <= 999,
    ensures
        res.deep_view() == text_failure_of(code, text@),
        res is None <==> 200 <= code < 300,
        res matches Some(m) ==> m@ == status_line_of(code) + ": "@ + text@,
{
    if 200 <= code && code < 300 {
        None
    } else {
        let line = status_line(code);
        Some(concat3(line.as_str(), ": ", text))
    }
}

/// Law: success is decided by the status alone. Every 2xx status is a
/// success, whatever the body; a 2xx answer with an empty body stands for
/// nothing and one with a body for content; every other status fails, with
/// `HTTP {status}: {detail}{hint}` as its message. Plain-text requests fail
/// on exactly the same statuses.
pub proof fn lemma_success_is_any_2xx(code: u16, body: Seq<u8>, text: Seq<char>)
    ensures
        outcome_of(code, body) is Failed <==> !(200 <= code < 300),
        200 <= code < 300 ==> (outcome_of(code, body) == OutcomeView::Empty <==> body.len() == 0),
        200 <= code < 300 && body.len() > 0 ==> outcome_of(code, body) == OutcomeView::Content,
        !(200 <= code < 300) ==> outcome_of(code, body) == OutcomeView::Failed(
            "HTTP "@ + status_line_of(code) + ": "@ + error_detail_of(body) + status_hint_of(code),
        ),
        text_failure_of(code, text) is None <==> outcome_of(code, body) !is Failed,
{
}

} // verus!
