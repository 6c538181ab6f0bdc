//! The CLI's configuration: what is stored in the config file and the
//! effective configuration after CLI flags and environment variables are
//! merged on top of it.
use vstd::prelude::*;

use crate::cli::GlobalArgs;
use crate::text::{strip_trailing, strip_trailing_char, concat2};

verus! {

/// API base URL used when neither a flag, the environment nor the config file
/// names one.
pub const DEFAULT_API_URL: &'static str = "http://localhost:3001";

/// What the config file holds.
#[derive(Debug, Clone)]
pub struct StoredConfig {
    pub api_url: Option<String>,
    pub admin_token: Option<String>,
    pub read_basic: Option<String>,
}

/// Effective config after merging stored values with CLI flags / env vars.
#[derive(Debug, Clone)]
pub struct ResolvedConfig {
    pub api_url: String,
    pub admin_token: Option<String>,
    pub run_token: Option<String>,
    pub read_basic: Option<String>,
    pub insecure: bool,
}

/// `first` when it is set, otherwise `second`.
pub open spec fn first_set<T>(first: Option<T>, second: Option<T>) -> Option<T> {
    match first {
        Some(v) => Some(v),
        None => second,
    }
}

/// The API URL chosen before normalisation: flag / environment first, then
/// the config file, then the built-in default.
pub open spec fn chosen_api_url(global: GlobalArgs, stored: StoredConfig) -> Seq<char> {
    match global.api_url {
        Some(u) => u@,
        None => match stored.api_url {
            Some(u) => u@,
            None => DEFAULT_API_URL@,
        },
    }
}

/// The root of the versioned REST API below `api_url`.
pub open spec fn api_base_of(api_url: Seq<char>) -> Seq<char> {
    api_url + "/api/v1"@
}

fn first_set_cloned(first: &Option<String>, second: &Option<String>) -> (res: Option<String>)
    ensures
        res == first_set(*first, *second),
{
    match first {
        Some(v) => Some(v.clone()),
        None => second.clone(),
    }
}

impl Default for StoredConfig {
    /// An empty config: nothing stored.
    fn default() -> (res: Self)
        ensures
            res.api_url is None,
            res.admin_token is None,
            res.read_basic is None,
    {
        StoredConfig { api_url: None, admin_token: None, read_basic: None }
    }
}

impl ResolvedConfig {
    /// Merges the global flags (which already carry the environment) over the
    /// stored config. Trailing `/` characters are stripped from the API URL.
    pub fn from_global(global: &GlobalArgs, stored: StoredConfig) -> (res: Self)
        ensures
            res.api_url@ == strip_trailing(chosen_api_url(*global, stored), '/'),
            res.admin_token == first_set(global.admin_token, stored.admin_token),
            res.run_token == global.run_token,
            res.read_basic == first_set(global.read_basic, stored.read_basic),
            res.insecure == global.insecure,
    {
        let api_url = match &global.api_url {
            Some(u) => strip_trailing_char(u.as_str(), '/'),
            None => match &stored.api_url {
                Some(u) => strip_trailing_char(u.as_str(), '/'),
                None => strip_trailing_char(DEFAULT_API_URL, '/'),
            },
        };
        ResolvedConfig {
            api_url,
            admin_token: first_set_cloned(&global.admin_token, &stored.admin_token),
            run_token: global.run_token.clone(),
            read_basic: first_set_cloned(&global.read_basic, &stored.read_basic),
            insecure: global.insecure,
        }
    }

    /// `{api_url}/api/v1`.
    pub fn api_base(&self) -> (res: String)
        ensures
            res@ == api_base_of(self.api_url@),
    {
        concat2(self.api_url.as_str(), "/api/v1")
    }
}

proof fn lemma_strip_trailing_props(s: Seq<char>, c: char)
    ensures
        strip_trailing(s, c).len() == 0 || strip_trailing(s, c).last() != c,
        strip_trailing(strip_trailing(s, c), c) == strip_trailing(s, c),
        strip_trailing(s, c).is_prefix_of(s),
    decreases s.len(),
{
    if s.len() > 0 && s.last() == c {
        lemma_strip_trailing_props(s.drop_last(), c);
    }
}

/// Law: the resolved API URL never ends in `/`, is a prefix of the URL that
/// was chosen, and resolving it once more leaves it unchanged.
pub proof fn lemma_resolved_url_normalized(global: GlobalArgs, stored: StoredConfig)
    ensures
        ({
            let u = strip_trailing(chosen_api_url(global, stored), '/');
            &&& (u.len() == 0 || u.last() != '/')
            &&& strip_trailing(u, '/') == u
            &&& u.is_prefix_of(chosen_api_url(global, stored))
        }),
{
    lemma_strip_trailing_props(chosen_api_url(global, stored), '/');
}

/// Law: flags (which carry the environment) win over the config file, and
/// the file over the built-in default `http://localhost:3001`; the run token
/// comes from the flags alone, and the resolved API URL is the chosen one
/// without trailing `/`.
pub proof fn lemma_flags_win_over_file(global: GlobalArgs, stored: StoredConfig)
    ensures
        global.api_url matches Some(u) ==> chosen_api_url(global, stored) == u@,
        global.api_url is None ==> (stored.api_url matches Some(u) ==> chosen_api_url(
            global,
            stored,
        ) == u@),
        global.api_url is None && stored.api_url is None ==> chosen_api_url(global, stored)
            == "http://localhost:3001"@,
        global.admin_token is Some ==> first_set(global.admin_token, stored.admin_token)
            == global.admin_token,
        global.admin_token is None ==> first_set(global.admin_token, stored.admin_token)
            == stored.admin_token,
        global.read_basic is Some ==> first_set(global.read_basic, stored.read_basic)
            == global.read_basic,
        global.read_basic is None ==> first_set(global.read_basic, stored.read_basic)
            == stored.read_basic,
{
}

} // verus!
