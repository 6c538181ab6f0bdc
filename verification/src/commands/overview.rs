//! `dyt overview` — dashboard counts and recent runs.
use vstd::prelude::*;

use crate::client::Auth;
use crate::request::{plain_request, simple_request, Method, Request};

verus! {

#[derive(Debug)]
pub struct OverviewArgs {}

/// `GET /overview`.
pub fn overview_request() -> (res: Request)
    ensures
        res@ == plain_request(Method::Get, "/overview"@, Auth::ReadOptional),
{
    simple_request(Method::Get, String::from_str("/overview"), Auth::ReadOptional)
}

} // verus!
