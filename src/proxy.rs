//! The reverse-proxy route of an app: the requests that create it, point it
//! at a new upstream, and remove it.
//!
//! Every route is addressed by its stable identifier `haas_apps_<id>_route`
//! (`/id/<route id>/...`); a new route is added under the static path of the
//! server's route list.
use vstd::prelude::*;
use vstd::string::*;
use crate::naming::{route_host, route_host_spec, route_id, route_id_spec};

verus! {

#[derive(PartialEq, Eq, Structural, Clone, Copy, Debug)]
pub enum ProxyMethod {
    /// Inserts into an array at the given index.
    Put,
    /// Replaces an existing value.
    Patch,
    /// Appends to an array.
    Post,
    Delete,
}

/// A route with one host matcher and one reverse-proxy handler.
#[derive(Debug)]
pub struct RouteDefinition {
    pub id: String,
    pub hosts: Vec<String>,
    pub dials: Vec<String>,
}

#[derive(Debug)]
pub enum ProxyBody {
    Nothing,
    /// `{"dial": <dial>}`
    Upstream { dial: String },
    /// `[{"dial": <dial>}, ...]`
    Upstreams { dials: Vec<String> },
    /// `{"id": .., "match": [{"host": [..]}], "handle": [{"handler": "reverse_proxy", "upstreams": [..]}]}`
    Route(RouteDefinition),
}

/// One call to the proxy's configuration API.
#[derive(Debug)]
pub struct ProxyRequest {
    pub method: ProxyMethod,
    pub path: String,
    pub body: ProxyBody,
}

pub open spec fn route_path_spec(app_id: int) -> Seq<char> {
    "/id/"@ + route_id_spec(app_id)
}

pub open spec fn upstreams_path_spec(app_id: int) -> Seq<char> {
    route_path_spec(app_id) + "/handle/0/upstreams"@
}

pub open spec fn first_upstream_path_spec(app_id: int) -> Seq<char> {
    upstreams_path_spec(app_id) + "/0"@
}

pub open spec fn routes_path_spec() -> Seq<char> {
    "/config/apps/http/servers/srv0/routes"@
}

pub open spec fn strings_are(v: Vec<String>, s: Seq<Seq<char>>) -> bool {
    v@.map_values(|x: String| x@) == s
}

/// `r` puts `upstream` at the head of the app route's upstream list.
pub open spec fn is_cut_in(r: ProxyRequest, app_id: int, upstream: Seq<char>) -> bool {
    &&& r.method == ProxyMethod::Put
    &&& r.path@ == first_upstream_path_spec(app_id)
    &&& r.body matches ProxyBody::Upstream { dial } && dial@ == upstream
}

/// `r` creates the app route: host `<slug>.hackclub.app`, one upstream.
pub open spec fn is_create_route(
    r: ProxyRequest,
    app_id: int,
    slug: Seq<char>,
    upstream: Seq<char>,
) -> bool {
    &&& r.method == ProxyMethod::Post
    &&& r.path@ == routes_path_spec()
    &&& r.body matches ProxyBody::Route(d) && d.id@ == route_id_spec(app_id) && strings_are(
        d.hosts,
        seq![route_host_spec(slug)],
    ) && strings_are(d.dials, seq![upstream])
}

/// `r` replaces the app route's whole upstream list with `[upstream]`.
pub open spec fn is_cut_over(r: ProxyRequest, app_id: int, upstream: Seq<char>) -> bool {
    &&& r.method == ProxyMethod::Patch
    &&& r.path@ == upstreams_path_spec(app_id)
    &&& r.body matches ProxyBody::Upstreams { dials } && strings_are(dials, seq![upstream])
}

/// `r` appends `upstream` to the app route's upstream list.
pub open spec fn is_add_upstream(r: ProxyRequest, app_id: int, upstream: Seq<char>) -> bool {
    &&& r.method == ProxyMethod::Post
    &&& r.path@ == upstreams_path_spec(app_id)
    &&& r.body matches ProxyBody::Upstream { dial } && dial@ == upstream
}

/// `r` deletes the app route.
pub open spec fn is_remove_route(r: ProxyRequest, app_id: int) -> bool {
    &&& r.method == ProxyMethod::Delete
    &&& r.path@ == route_path_spec(app_id)
    &&& r.body is Nothing
}

fn route_path(app_id: i32) -> (r: String)
    ensures
        r@ == route_path_spec(app_id as int),
{
    let mut s = String::from_str("/id/");
    let id = route_id(app_id);
    s.append(id.as_str());
    s
}

fn upstreams_path(app_id: i32) -> (r: String)
    ensures
        r@ == upstreams_path_spec(app_id as int),
{
    let mut s = route_path(app_id);
    s.append("/handle/0/upstreams");
    s
}

fn one_string(s: &str) -> (r: Vec<String>)
    ensures
        strings_are(r, seq![s@]),
{
    let mut v: Vec<String> = Vec::new();
    v.push(String::from_str(s));
    assert(v@.map_values(|x: String| x@) =~= seq![s@]);
    v
}

/// The first half of an upsert: put `upstream` at the head of the existing
/// route's upstream list. Fails at the proxy when the route does not exist.
pub fn cut_in_request(app_id: i32, upstream: &str) -> (r: ProxyRequest)
    ensures
        is_cut_in(r, app_id as int, upstream@),
{
    let mut path = upstreams_path(app_id);
    path.append("/0");
    ProxyRequest {
        method: ProxyMethod::Put,
        path,
        body: ProxyBody::Upstream { dial: String::from_str(upstream) },
    }
}

/// The second half of an upsert, sent when the first failed: create the route
/// with its host matcher and `upstream` as its only upstream.
pub fn create_route_request(app_id: i32, slug: &str, upstream: &str) -> (r: ProxyRequest)
    ensures
        is_create_route(r, app_id as int, slug@, upstream@),
{
    let host = route_host(slug);
    let definition = RouteDefinition {
        id: route_id(app_id),
        hosts: one_string(host.as_str()),
        dials: one_string(upstream),
    };
    ProxyRequest {
        method: ProxyMethod::Post,
        path: String::from_str("/config/apps/http/servers/srv0/routes"),
        body: ProxyBody::Route(definition),
    }
}

/// The atomic cut-over: the route's upstream list becomes `[upstream]`.
pub fn replace_upstream_list(app_id: i32, upstream: &str) -> (r: ProxyRequest)
    ensures
        is_cut_over(r, app_id as int, upstream@),
{
    ProxyRequest {
        method: ProxyMethod::Patch,
        path: upstreams_path(app_id),
        body: ProxyBody::Upstreams { dials: one_string(upstream) },
    }
}

/// Appends `upstream` to the route's upstream list, keeping the others.
pub fn add_upstream(app_id: i32, upstream: &str) -> (r: ProxyRequest)
    ensures
        is_add_upstream(r, app_id as int, upstream@),
{
    ProxyRequest {
        method: ProxyMethod::Post,
        path: upstreams_path(app_id),
        body: ProxyBody::Upstream { dial: String::from_str(upstream) },
    }
}

/// Deletes the app's route.
pub fn remove_route(app_id: i32) -> (r: ProxyRequest)
    ensures
        is_remove_route(r, app_id as int),
{
    ProxyRequest { method: ProxyMethod::Delete, path: route_path(app_id), body: ProxyBody::Nothing }
}

pub open spec fn same_body(x: ProxyBody, y: ProxyBody) -> bool {
    match (x, y) {
        (ProxyBody::Nothing, ProxyBody::Nothing) => true,
        (ProxyBody::Upstream { dial: a }, ProxyBody::Upstream { dial: b }) => a@ == b@,
        (ProxyBody::Upstreams { dials: a }, ProxyBody::Upstreams { dials: b }) => a@.map_values(
            |s: String| s@,
        ) == b@.map_values(|s: String| s@),
        (ProxyBody::Route(a), ProxyBody::Route(b)) => {
            &&& a.id@ == b.id@
            &&& a.hosts@.map_values(|s: String| s@) == b.hosts@.map_values(|s: String| s@)
            &&& a.dials@.map_values(|s: String| s@) == b.dials@.map_values(|s: String| s@)
        },
        _ => false,
    }
}

/// Two requests that say the same thing to the proxy.
pub open spec fn same_request(x: ProxyRequest, y: ProxyRequest) -> bool {
    x.method == y.method && x.path@ == y.path@ && same_body(x.body, y.body)
}

/// An upsert with the same app, slug and upstream always sends the same
/// requests, and the route it creates holds exactly one host and one upstream,
/// the given one: upserting twice leaves the route as upserting once.
pub proof fn lemma_upsert_idempotent(
    put1: ProxyRequest,
    put2: ProxyRequest,
    post1: ProxyRequest,
    post2: ProxyRequest,
    app_id: int,
    slug: Seq<char>,
    upstream: Seq<char>,
)
    requires
        is_cut_in(put1, app_id, upstream),
        is_cut_in(put2, app_id, upstream),
        is_create_route(post1, app_id, slug, upstream),
        is_create_route(post2, app_id, slug, upstream),
    ensures
        same_request(put1, put2),
        same_request(post1, post2),
        post1.body matches ProxyBody::Route(d) && d.dials@.len() == 1 && d.dials@[0]@ == upstream
            && d.hosts@.len() == 1 && d.hosts@[0]@ == route_host_spec(slug),
{
    if let ProxyBody::Route(d) = post1.body {
        assert(d.dials@.map_values(|s: String| s@) == seq![upstream]);
        assert(d.dials@.map_values(|s: String| s@).len() == 1);
        assert(d.dials@.map_values(|s: String| s@)[0] == upstream);
        assert(d.dials@.len() == 1);
        assert(d.dials@[0]@ == upstream);
        assert(d.hosts@.map_values(|s: String| s@) == seq![route_host_spec(slug)]);
        assert(d.hosts@.map_values(|s: String| s@).len() == 1);
        assert(d.hosts@.map_values(|s: String| s@)[0] == route_host_spec(slug));
        assert(d.hosts@.len() == 1);
    }
}

} // verus!
