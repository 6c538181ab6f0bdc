//! `dyt sla ...` — SLA-at-risk queries.
use vstd::prelude::*;

use crate::client::Auth;
use crate::request::{plain_request, simple_request, Method, Request};
use crate::text::concat2;
use crate::url::{enc_query, url_encoded};

verus! {

#[derive(Debug)]
pub struct SlaArgs {
    pub action: SlaAction,
}

#[derive(Debug)]
pub enum SlaAction {
    /// Runs whose expected finish is within --within (e.g. 30m, 2h).
    AtRisk { within: String },
}

/// `GET /sla/at-risk?within=..`.
pub fn at_risk_request(within: &str) -> (res: Request)
    ensures
        res@ == plain_request(
            Method::Get,
            "/sla/at-risk?within="@ + url_encoded(within@),
            Auth::ReadOptional,
        ),
{
    let w = enc_query(within);
    simple_request(Method::Get, concat2("/sla/at-risk?within=", w.as_str()), Auth::ReadOptional)
}

/// The columns of the at-risk table.
pub fn at_risk_columns() -> (res: Vec<&'static str>)
    ensures
        res@ == seq!["run_id", "workflow_slug", "expected_finish", "seconds_to_sla"],
{
    vec!["run_id", "workflow_slug", "expected_finish", "seconds_to_sla"]
}

} // verus!
