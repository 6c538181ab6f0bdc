//! `dyt login`, `dyt logout`, `dyt whoami` — the stored admin token and a
//! look at the resolved configuration.
use vstd::prelude::*;
use vstd::utf8::*;
use vstd::string::StringSliceAdditionalSpecFns;

use crate::client::Auth;
use crate::commands::{CommandError, CommandErrorView};
use crate::request::{plain_request, simple_request, Method, Request};
use crate::config::{first_set, ResolvedConfig, StoredConfig};
use crate::text::{concat2, repeat_char, repeated, trim, trimmed};

verus! {

#[derive(Debug, Clone)]
pub struct LoginArgs {
    /// Admin token. If omitted, dyt prompts on stdin (hidden input).
    pub admin_token: Option<String>,
    /// API base URL to save with the token.
    pub api_url: Option<String>,
}

#[derive(Debug, Clone)]
pub struct WhoamiArgs {}

// ---------------------------------------------------------------------------
// Masking secrets
// ---------------------------------------------------------------------------

/// Whether `s` can be masked: short secrets always; longer ones when their
/// first four and last four bytes are whole characters. (Its byte length
/// fits in `usize`, as that of every string in memory does.)
pub open spec fn can_mask(s: Seq<char>) -> bool {
    let b = encode_utf8(s);
    &&& b.len() <= usize::MAX
    &&& b.len() <= 8 || (is_char_boundary(b, 4) && is_char_boundary(b, b.len() - 4))
}

/// A secret as it is displayed: up to 8 bytes become as many `*`; longer
/// secrets keep their first and last four bytes around an ellipsis.
pub open spec fn masked(s: Seq<char>) -> Seq<char> {
    let b = encode_utf8(s);
    if b.len() <= 8 {
        repeated('*', b.len())
    } else {
        decode_utf8(b.subrange(0, 4)) + "…"@ + decode_utf8(b.subrange(b.len() - 4, b.len() as int))
    }
}

/// Masks a secret for display.
pub fn mask(s: &str) -> (res: String)
    requires
        can_mask(s@),
    ensures
        res@ == masked(s@),
{
    let n = s.len();
    proof {
        assert(s.spec_bytes() == encode_utf8(s@));
        assert(n == encode_utf8(s@).len());
    }
    if n <= 8 {
        return repeat_char('*', n);
    }
    let (head, _) = s.split_at(4);
    assert(is_char_boundary(s.spec_bytes(), n - 4));
    let (_, tail) = s.split_at(n - 4);
    proof {
        encode_utf8_decode_utf8(head@);
        encode_utf8_decode_utf8(tail@);
    }
    let mut res = String::from_str(head);
    res.append("…");
    res.append(tail);
    res
}

/// A secret masked, or `<unset>`.
pub open spec fn masked_or_unset(secret: Option<String>) -> Seq<char> {
    match secret {
        Some(s) => masked(s@),
        None => "<unset>"@,
    }
}

/// Whether an optional secret can be masked.
pub open spec fn can_mask_opt(secret: Option<String>) -> bool {
    match secret {
        Some(s) => can_mask(s@),
        None => true,
    }
}

/// Masks an optional secret, or says `<unset>`.
pub fn mask_or_unset(secret: &Option<String>) -> (res: String)
    requires
        can_mask_opt(*secret),
    ensures
        res@ == masked_or_unset(*secret),
{
    match secret {
        Some(s) => mask(s.as_str()),
        None => String::from_str("<unset>"),
    }
}

/// Law: masking reveals nothing but the length of a short secret, and
/// nothing but the first and last four bytes of a long one: two secrets that
/// agree on those show the same masked text.
pub proof fn lemma_mask_reveals_little(a: Seq<char>, b: Seq<char>)
    requires
        can_mask(a),
        can_mask(b),
    ensures
        ({
            let ba = encode_utf8(a);
            let bb = encode_utf8(b);
            &&& (ba.len() <= 8 && ba.len() == bb.len()) ==> masked(a) == masked(b)
            &&& (ba.len() > 8 && bb.len() > 8 && ba.subrange(0, 4) == bb.subrange(0, 4)
                && ba.subrange(ba.len() - 4, ba.len() as int) == bb.subrange(
                bb.len() - 4,
                bb.len() as int,
            )) ==> masked(a) == masked(b)
        }),
{
}

/// Law: what a masked secret shows. A secret of up to 8 bytes becomes one
/// `*` per byte; a longer one shows its first four bytes, an ellipsis and its
/// last four bytes, and nothing else.
pub proof fn lemma_mask_shows_only_the_ends(s: Seq<char>)
    ensures
        ({
            let b = encode_utf8(s);
            &&& b.len() <= 8 ==> masked(s).len() == b.len() && forall|i: int|
                0 <= i < masked(s).len() ==> #[trigger] masked(s)[i] == '*'
            &&& b.len() > 8 ==> masked(s) == decode_utf8(b.subrange(0, 4)) + "…"@ + decode_utf8(
                b.subrange(b.len() - 4, b.len() as int),
            )
        }),
{
}

// ---------------------------------------------------------------------------
// login / logout / whoami
// ---------------------------------------------------------------------------

/// The config saved by `login`: the given API URL (if any) replaces the
/// stored one, and the token is saved trimmed; an empty token is refused.
pub fn login_config(cfg: StoredConfig, api_url: Option<String>, token: &str) -> (res: Result<
    StoredConfig,
    CommandError,
>)
    ensures
        match res {
            Ok(c) => {
                &&& trimmed(token@).len() > 0
                &&& c.api_url == first_set(api_url, cfg.api_url)
                &&& c.admin_token.deep_view() == Some(trimmed(token@))
                &&& c.read_basic == cfg.read_basic
            },
            Err(e) => trimmed(token@).len() == 0 && e@ == CommandErrorView::EmptyToken,
        },
{
    let t = trim(token);
    if t.as_str().is_empty() {
        return Err(CommandError::EmptyToken);
    }
    let api = match api_url {
        Some(u) => Some(u),
        None => cfg.api_url,
    };
    Ok(StoredConfig { api_url: api, admin_token: Some(t), read_basic: cfg.read_basic })
}

/// The config saved by `logout`: the admin token is forgotten, nothing else
/// changes.
pub fn logout_config(cfg: StoredConfig) -> (res: StoredConfig)
    ensures
        res.admin_token is None,
        res.api_url == cfg.api_url,
        res.read_basic == cfg.read_basic,
{
    StoredConfig { api_url: cfg.api_url, admin_token: None, read_basic: cfg.read_basic }
}

/// The two configuration lines `whoami` prints.
pub fn whoami_lines(cfg: &ResolvedConfig) -> (res: Vec<String>)
    requires
        can_mask_opt(cfg.admin_token),
    ensures
        res@.len() == 2,
        res@[0]@ == "api_url     = "@ + cfg.api_url@,
        res@[1]@ == "admin_token = "@ + masked_or_unset(cfg.admin_token),
{
    let mut res: Vec<String> = Vec::new();
    res.push(concat2("api_url     = ", cfg.api_url.as_str()));
    let m = mask_or_unset(&cfg.admin_token);
    res.push(concat2("admin_token = ", m.as_str()));
    res
}

/// Whether `whoami` also asks `/auth/me` (only with an admin token set).
pub fn probes_session(cfg: &ResolvedConfig) -> (res: bool)
    ensures
        res == cfg.admin_token is Some,
{
    cfg.admin_token.is_some()
}

/// `GET /auth/me` without a credential: the session probe of `whoami`.
pub fn me_request() -> (res: Request)
    ensures
        res@ == plain_request(Method::Get, "/auth/me"@, Auth::Unauthenticated),
{
    simple_request(Method::Get, String::from_str("/auth/me"), Auth::Unauthenticated)
}

} // verus!
