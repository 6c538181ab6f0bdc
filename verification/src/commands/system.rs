//! `dyt health` — ping the server.
use vstd::prelude::*;

use crate::client::Auth;
use crate::request::{plain_request, simple_request, Method, Request};

verus! {

/// `clap_complete::Shell`, carried through to the completion generator.
#[verifier::external_type_specification]
#[verifier::external_body]
pub struct ExShell(clap_complete::Shell);

#[derive(Debug)]
pub struct HealthArgs {}

#[derive(Debug)]
pub struct CompletionArgs {
    /// Shell to generate completions for.
    pub shell: clap_complete::Shell,
}

/// The path `health` and `whoami` ping (a plain-text request).
pub fn health_path() -> (res: &'static str)
    ensures
        res@ == "/health"@,
{
    "/health"
}

/// `GET /health` without a credential.
pub fn health_request() -> (res: Request)
    ensures
        res@ == plain_request(Method::Get, "/health"@, Auth::Unauthenticated),
{
    simple_request(Method::Get, String::from_str(health_path()), Auth::Unauthenticated)
}

} // verus!
