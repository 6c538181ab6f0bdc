//! `dyt config ...` — show or change the stored configuration.
use vstd::prelude::*;

use crate::commands::auth::{can_mask_opt, mask_or_unset, masked_or_unset};
use crate::commands::{CommandError, CommandErrorView};
use crate::config::StoredConfig;
use crate::text::{concat2, same_text, trim, trimmed};

verus! {

#[derive(Debug)]
pub struct ConfigArgs {
    pub action: Option<ConfigAction>,
}

#[derive(Debug)]
pub enum ConfigAction {
    /// Print the current config (paths + values, token masked).
    Show,
    /// Set a single config key. `dyt config set api-url http://...`
    ///
    /// For secret keys (`admin-token`, `read-basic`), pass `-` as the value
    /// to be prompted on stdin (hidden) instead of putting the secret on the
    /// argv where it would leak into shell history and process listings.
    SetKey { key: ConfigKey, value: String },
    /// Clear a key.
    Unset { key: ConfigKey },
    /// Print where the config file lives.
    Path,
}

#[derive(Debug, Clone, Copy, PartialEq, Eq, Structural)]
pub enum ConfigKey {
    ApiUrl,
    AdminToken,
    ReadBasic,
}

/// The action to run; `dyt config` alone shows the config.
pub fn action_or_show(args: ConfigArgs) -> (res: ConfigAction)
    ensures
        match args.action {
            Some(a) => res == a,
            None => res is Show,
        },
{
    match args.action {
        Some(a) => a,
        None => ConfigAction::Show,
    }
}

/// The stored value of `key`.
pub open spec fn key_value(cfg: StoredConfig, key: ConfigKey) -> Option<String> {
    match key {
        ConfigKey::ApiUrl => cfg.api_url,
        ConfigKey::AdminToken => cfg.admin_token,
        ConfigKey::ReadBasic => cfg.read_basic,
    }
}

/// `cfg` with the value of `key` replaced by `value`.
pub open spec fn with_key(cfg: StoredConfig, key: ConfigKey, value: Option<String>) -> StoredConfig {
    match key {
        ConfigKey::ApiUrl => StoredConfig { api_url: value, ..cfg },
        ConfigKey::AdminToken => StoredConfig { admin_token: value, ..cfg },
        ConfigKey::ReadBasic => StoredConfig { read_basic: value, ..cfg },
    }
}

/// `cfg` with `key` set to `value`; the other keys are kept.
pub fn set_key(cfg: StoredConfig, key: ConfigKey, value: String) -> (res: StoredConfig)
    ensures
        res == with_key(cfg, key, Some(value)),
{
    let mut res = cfg;
    match key {
        ConfigKey::ApiUrl => res.api_url = Some(value),
        ConfigKey::AdminToken => res.admin_token = Some(value),
        ConfigKey::ReadBasic => res.read_basic = Some(value),
    }
    res
}

/// `cfg` with `key` cleared; the other keys are kept.
pub fn unset_key(cfg: StoredConfig, key: ConfigKey) -> (res: StoredConfig)
    ensures
        res == with_key(cfg, key, None),
{
    let mut res = cfg;
    match key {
        ConfigKey::ApiUrl => res.api_url = None,
        ConfigKey::AdminToken => res.admin_token = None,
        ConfigKey::ReadBasic => res.read_basic = None,
    }
    res
}

/// Law: after `config set`, reading the key gives back the value written and
/// every other key is untouched; `config unset` after `config set` leaves the
/// same config as `config unset` alone.
pub proof fn lemma_set_then_unset(cfg: StoredConfig, key: ConfigKey, value: String, other: ConfigKey)
    requires
        other != key,
    ensures
        key_value(with_key(cfg, key, Some(value)), key) == Some(value),
        key_value(with_key(cfg, key, Some(value)), other) == key_value(cfg, other),
        key_value(with_key(cfg, key, None), key) is None,
        key_value(with_key(cfg, key, None), other) == key_value(cfg, other),
        with_key(with_key(cfg, key, Some(value)), key, None) == with_key(cfg, key, None),
{
}

/// The value lines `config show` prints (after the config path).
pub fn show_lines(cfg: &StoredConfig) -> (res: Vec<String>)
    requires
        can_mask_opt(cfg.admin_token),
        can_mask_opt(cfg.read_basic),
    ensures
        res@.len() == 3,
        res@[0]@ == "api_url     = "@ + match cfg.api_url {
            Some(u) => u@,
            None => "<unset, default http://localhost:3001>"@,
        },
        res@[1]@ == "admin_token = "@ + masked_or_unset(cfg.admin_token),
        res@[2]@ == "read_basic  = "@ + masked_or_unset(cfg.read_basic),
{
    let mut res: Vec<String> = Vec::new();
    match &cfg.api_url {
        Some(u) => res.push(concat2("api_url     = ", u.as_str())),
        None => res.push(concat2("api_url     = ", "<unset, default http://localhost:3001>")),
    }
    let t = mask_or_unset(&cfg.admin_token);
    res.push(concat2("admin_token = ", t.as_str()));
    let b = mask_or_unset(&cfg.read_basic);
    res.push(concat2("read_basic  = ", b.as_str()));
    res
}

/// Where the value given to `config set` comes from.
#[derive(Debug, Clone, Copy, PartialEq, Eq, Structural)]
pub enum ValueSource {
    /// Read a secret from stdin: a hidden prompt on a terminal, one line
    /// otherwise.
    Prompt { admin_token: bool },
    /// The value on the command line; `warn` prints the shell-history warning.
    Given { warn: bool },
}

/// Whether a key holds a secret.
pub open spec fn is_secret(key: ConfigKey) -> bool {
    key == ConfigKey::AdminToken || key == ConfigKey::ReadBasic
}

/// Secrets given as `-` are prompted for; secrets given on the command line
/// earn a warning; everything else is taken as it is.
pub open spec fn value_source_of(key: ConfigKey, raw: Seq<char>) -> ValueSource {
    if is_secret(key) && raw == "-"@ {
        ValueSource::Prompt { admin_token: key == ConfigKey::AdminToken }
    } else if is_secret(key) && raw.len() > 0 {
        ValueSource::Given { warn: true }
    } else {
        ValueSource::Given { warn: false }
    }
}

/// Law: the API URL is always taken as given, without a warning. A secret
/// (the admin token or the read credentials) given as `-` is read from stdin,
/// with the admin-token prompt for the admin token; a secret given on the
/// command line is taken with the shell-history warning, unless it is empty.
pub proof fn lemma_value_source_cases(key: ConfigKey, raw: Seq<char>)
    ensures
        key == ConfigKey::ApiUrl ==> value_source_of(key, raw) == (ValueSource::Given { warn: false }),
        key == ConfigKey::AdminToken && raw == "-"@ ==> value_source_of(key, raw)
            == (ValueSource::Prompt { admin_token: true }),
        key == ConfigKey::ReadBasic && raw == "-"@ ==> value_source_of(key, raw)
            == (ValueSource::Prompt { admin_token: false }),
        key != ConfigKey::ApiUrl && raw != "-"@ && raw.len() > 0 ==> value_source_of(key, raw)
            == (ValueSource::Given { warn: true }),
        key != ConfigKey::ApiUrl && raw.len() == 0 ==> value_source_of(key, raw)
            == (ValueSource::Given { warn: false }),
{
    reveal_strlit("-");
}

/// Decides where the value of `config set` comes from.
pub fn value_source(key: ConfigKey, raw: &str) -> (res: ValueSource)
    ensures
        res == value_source_of(key, raw@),
{
    let secret = key == ConfigKey::AdminToken || key == ConfigKey::ReadBasic;
    if secret && same_text(raw, "-") {
        ValueSource::Prompt { admin_token: key == ConfigKey::AdminToken }
    } else if secret && !raw.is_empty() {
        ValueSource::Given { warn: true }
    } else {
        ValueSource::Given { warn: false }
    }
}

/// The prompt shown when a secret is read from a terminal.
pub fn prompt_text(admin_token: bool) -> (res: &'static str)
    ensures
        res@ == if admin_token { "admin token: "@ } else { "read basic (user:pass): "@ },
{
    if admin_token {
        "admin token: "
    } else {
        "read basic (user:pass): "
    }
}

/// A secret read from stdin, trimmed; an empty one is refused.
pub fn accept_entered(entered: &str) -> (res: Result<String, CommandError>)
    ensures
        match res {
            Ok(v) => trimmed(entered@).len() > 0 && v@ == trimmed(entered@),
            Err(e) => trimmed(entered@).len() == 0 && e@ == CommandErrorView::EmptyValue,
        },
{
    let t = trim(entered);
    if t.as_str().is_empty() {
        Err(CommandError::EmptyValue)
    } else {
        Ok(t)
    }
}

} // verus!
