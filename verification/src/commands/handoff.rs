//! `dyt handoff ...` — inspect or offer cross-cluster handoffs.
use vstd::prelude::*;

use crate::client::Auth;
use crate::commands::{
    has_query_item, lemma_param_is_query_item, opt_param, push_opt_param, segment_path,
};
use crate::request::{
    body_request, fields_view, json_request, opt_int_field, opt_text_field, plain_request,
    push_opt_int, push_opt_text, simple_request, Field, Method, Request,
};
use crate::text::{concat2, i64_decimal, int_decimal};
use crate::url::url_encoded;

verus! {

#[derive(Debug)]
pub struct HandoffArgs {
    pub action: HandoffAction,
}

#[derive(Debug)]
pub enum HandoffAction {
    /// List handoffs (filter by status / from_run_id / limit).
    List(ListArgs),
    /// Offer a handoff for a run. Admin-only.
    Offer(OfferArgs),
    /// Expire stale offered handoffs (admin sweep).
    Expire,
}

#[derive(Debug, Clone)]
pub struct ListArgs {
    pub status: Option<String>,
    pub from_run_id: Option<String>,
    pub limit: i64,
}

#[derive(Debug, Clone)]
pub struct OfferArgs {
    /// Source run id (the one being handed off).
    pub run_id: String,
    /// Cluster tag to advertise as the handoff target.
    pub to_cluster: Option<String>,
    /// Override the default handoff token TTL.
    pub ttl_s: Option<i64>,
}

/// `GET /handoffs?limit=..[&status=..][&from_run_id=..]`.
pub open spec fn list_path_of(a: ListArgs) -> Seq<char> {
    "/handoffs?limit="@ + int_decimal(a.limit as int) + opt_param("&status="@, a.status)
        + opt_param("&from_run_id="@, a.from_run_id)
}

/// The request that lists handoffs.
pub fn list_request(a: &ListArgs) -> (res: Request)
    ensures
        res@ == plain_request(Method::Get, list_path_of(*a), Auth::ReadOptional),
{
    let limit = i64_decimal(a.limit);
    let mut path = concat2("/handoffs?limit=", limit.as_str());
    push_opt_param(&mut path, "&status=", &a.status);
    push_opt_param(&mut path, "&from_run_id=", &a.from_run_id);
    simple_request(Method::Get, path, Auth::ReadOptional)
}

/// Law: a handoff listing asks `/handoffs?` with the limit as its first
/// query item, and every filter that is given stands in the query as
/// `name=value`, the value percent-encoded.
pub proof fn lemma_handoff_list_sends_every_filter(a: ListArgs)
    ensures
        list_path_of(a).subrange(0, 10) == "/handoffs?"@,
        has_query_item(list_path_of(a), "limit="@ + int_decimal(a.limit as int)),
        a.status matches Some(v) ==> has_query_item(list_path_of(a), "status="@ + url_encoded(v@)),
        a.from_run_id matches Some(v) ==> has_query_item(
            list_path_of(a),
            "from_run_id="@ + url_encoded(v@),
        ),
{
    reveal_strlit("/handoffs?limit=");
    reveal_strlit("/handoffs?");
    reveal_strlit("limit=");
    reveal_strlit("&status=");
    reveal_strlit("status=");
    reveal_strlit("&from_run_id=");
    reveal_strlit("from_run_id=");
    let path = list_path_of(a);
    let head = "/handoffs?limit="@ + int_decimal(a.limit as int);
    let ps = opt_param("&status="@, a.status);
    let pf = opt_param("&from_run_id="@, a.from_run_id);
    assert(path.subrange(0, 10) =~= "/handoffs?"@);
    let limit = "limit="@ + int_decimal(a.limit as int);
    assert(path.subrange(10, 10 + limit.len() as int) =~= limit);
    assert(path[9] == '?');
    assert(has_query_item(path, limit));
    assert("&status="@ =~= seq!['&'] + "status="@);
    assert("&from_run_id="@ =~= seq!['&'] + "from_run_id="@);
    assert(path =~= head + ps + pf);
    lemma_param_is_query_item(head, "&status="@, "status="@, a.status, pf);
    assert(path =~= (head + ps) + pf + Seq::<char>::empty());
    lemma_param_is_query_item(head + ps, "&from_run_id="@, "from_run_id="@, a.from_run_id, Seq::empty());
}

/// The columns of the handoff list table.
pub fn list_columns() -> (res: Vec<&'static str>)
    ensures
        res@ == seq!["id", "from_run_id", "to_run_id", "to_cluster", "status", "expires_at"],
{
    vec!["id", "from_run_id", "to_run_id", "to_cluster", "status", "expires_at"]
}

/// `POST /runs/{run_id}/handoff` with the optional target cluster and TTL.
pub fn offer_request(a: &OfferArgs) -> (res: Request)
    ensures
        res@ == body_request(
            Method::Post,
            "/runs/"@ + url_encoded(a.run_id@) + "/handoff"@,
            Auth::Admin,
            None,
            opt_text_field("to_cluster"@, a.to_cluster) + opt_int_field("ttl_s"@, a.ttl_s),
        ),
{
    let mut fields: Vec<Field> = Vec::new();
    push_opt_text(&mut fields, "to_cluster", a.to_cluster.clone());
    push_opt_int(&mut fields, "ttl_s", a.ttl_s);
    assert(fields_view(fields@) =~= opt_text_field("to_cluster"@, a.to_cluster) + opt_int_field(
        "ttl_s"@,
        a.ttl_s,
    ));
    json_request(
        Method::Post,
        segment_path("/runs/", a.run_id.as_str(), "/handoff"),
        Auth::Admin,
        None,
        fields,
    )
}

/// `POST /handoffs/expire` (admin sweep, no body).
pub fn expire_request() -> (res: Request)
    ensures
        res@ == plain_request(Method::Post, "/handoffs/expire"@, Auth::Admin),
{
    simple_request(Method::Post, String::from_str("/handoffs/expire"), Auth::Admin)
}

} // verus!
