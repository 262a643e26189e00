//! One owner's site: the resolved route table and the blob-host list.
//!
//! A site exists only for an owner whose log holds a root route
//! (`/index.html`). Its route table maps absolute paths to resolved
//! routes, the last resolution of a path winning; its server list starts
//! as the constant default and is replaced wholesale — even by an empty
//! list — when the owner has published one.

use vstd::prelude::*;
use crate::errors::GatewayError;
use crate::events::{
    LogEvent, QueryFilter, RouteParse, route_parse, server_urls_of, find_tag, parse_server_tags,
};
use crate::hexcodec;
use crate::text::str_eq;

verus! {

/// The mathematical value of a resolved route.
pub struct RouteModel {
    pub path: Seq<char>,
    pub key: Seq<u8>,
    pub created_at: u64,
}

/// A single resolved route: one absolute path bound to one content hash,
/// as of the most recent query.
pub struct SiteRoute {
    /// Absolute url path.
    pub path: String,
    /// SHA256 hash of the file.
    pub key: [u8; 32],
    /// Timestamp when the site route event was created.
    pub created_at: u64,
}

impl View for SiteRoute {
    type V = RouteModel;

    open spec fn view(&self) -> RouteModel {
        RouteModel { path: self.path@, key: self.key@, created_at: self.created_at }
    }
}

impl Clone for SiteRoute {
    fn clone(&self) -> (r: Self)
        ensures
            r@ == self@,
    {
        SiteRoute { path: self.path.clone(), key: self.key, created_at: self.created_at }
    }
}

/// The map denoted by a sequence of resolved routes; a later resolution
/// of the same path wins.
pub open spec fn routes_map(rs: Seq<SiteRoute>) -> Map<Seq<char>, RouteModel>
    decreases rs.len(),
{
    if rs.len() == 0 {
        Map::empty()
    } else {
        routes_map(rs.drop_last()).insert(rs.last().path@, rs.last()@)
    }
}

/// In `rs`, position `i` holds the resolution that decides path `p`: it
/// matches, and nothing after it does.
pub open spec fn deciding_route(rs: Seq<SiteRoute>, p: Seq<char>, i: int) -> bool {
    &&& 0 <= i < rs.len()
    &&& rs[i].path@ == p
    &&& forall|j: int| i < j < rs.len() ==> rs[j].path@ != p
}

/// The resolution that nothing later overrides is the one the map holds.
proof fn lemma_routes_map_decided(rs: Seq<SiteRoute>, p: Seq<char>, i: int)
    requires
        deciding_route(rs, p, i),
    ensures
        routes_map(rs).contains_key(p),
        routes_map(rs)[p] == rs[i]@,
    decreases rs.len(),
{
    if i == rs.len() - 1 {
    } else {
        lemma_routes_map_decided(rs.drop_last(), p, i);
    }
}

/// A path matched by no resolution is not in the map.
proof fn lemma_routes_map_absent(rs: Seq<SiteRoute>, p: Seq<char>)
    requires
        forall|i: int| 0 <= i < rs.len() ==> rs[i].path@ != p,
    ensures
        !routes_map(rs).contains_key(p),
    decreases rs.len(),
{
    if rs.len() > 0 {
        lemma_routes_map_absent(rs.drop_last(), p);
    }
}

/// Two route sequences with pairwise equal values denote the same map.
proof fn lemma_routes_map_congruent(a: Seq<SiteRoute>, b: Seq<SiteRoute>)
    requires
        a.len() == b.len(),
        forall|i: int| 0 <= i < a.len() ==> a[i]@ == b[i]@,
    ensures
        routes_map(a) == routes_map(b),
    decreases a.len(),
{
    if a.len() > 0 {
        lemma_routes_map_congruent(a.drop_last(), b.drop_last());
        assert(a.last()@ == b.last()@);
        assert(a.last().path@ == a.last()@.path);
    }
}

/// The mathematical value of a site: owner, route table, server list.
pub struct SiteModel {
    pub pubkey: Seq<u8>,
    pub routes: Map<Seq<char>, RouteModel>,
    pub servers: Seq<Seq<char>>,
}

/// The constant default blob-host list, used until an owner publishes one.
pub open spec fn default_servers() -> Seq<Seq<char>> {
    seq![
        "https://nostr.download"@,
        "https://blossom.band"@,
        "https://24242.io"@,
        "https://blossom.primal.net"@,
    ]
}

/// The absolute path whose route decides whether a site exists at all.
pub open spec fn root_path() -> Seq<char> {
    "/index.html"@
}

/// The request path actually served: an empty path means the root route,
/// anything else is made absolute.
pub open spec fn normalized_request_path(p: Seq<char>) -> Seq<char> {
    if p.len() == 0 {
        root_path()
    } else {
        "/"@ + p
    }
}

/// Normalizes the path of an incoming request, as
/// `normalized_request_path` describes.
pub fn normalize_request_path(p: &str) -> (r: String)
    ensures
        r@ == normalized_request_path(p@),
{
    if p.unicode_len() == 0 {
        String::from_str("/index.html")
    } else {
        let mut out = String::from_str("/");
        out.append(p);
        out
    }
}

/// The server list after the server-list query's outcome is applied: no
/// event leaves the list alone, an event replaces it wholesale with its
/// valid `server` tags.
pub open spec fn servers_after(m: SiteModel, events: Seq<LogEvent>) -> Seq<Seq<char>> {
    if events.len() == 0 {
        m.servers
    } else {
        server_urls_of(events[0].tags@)
    }
}

/// An owner that has published no server-list event keeps the constant
/// default list, unchanged and in order.
pub proof fn lemma_default_servers_kept(m: SiteModel, events: Seq<LogEvent>)
    requires
        m.servers == default_servers(),
        events.len() == 0,
    ensures
        servers_after(m, events) == default_servers(),
{
}

/// An owner that published a server-list event with no valid `server`
/// tag gets the empty list — not the default — and every subsequent
/// fetch session gives up at once with no host contacted.
pub proof fn lemma_published_empty_list_is_final(m: SiteModel, events: Seq<LogEvent>)
    requires
        events.len() > 0,
        server_urls_of(events[0].tags@) == Seq::<Seq<char>>::empty(),
    ensures
        servers_after(m, events).len() == 0,
        forall|fm: crate::cache::FetchModel|
            fm.servers == servers_after(m, events) && fm.next_index >= 0
                ==> crate::cache::action_of(fm) is Exhausted,
{
}

/// One owner's loaded site.
pub struct SiteInfo {
    /// Owner public key.
    pub pubkey: [u8; 32],
    routes: Vec<SiteRoute>,
    server_list: Vec<String>,
}

impl View for SiteInfo {
    type V = SiteModel;

    closed spec fn view(&self) -> SiteModel {
        SiteModel {
            pubkey: self.pubkey@,
            routes: routes_map(self.routes@),
            servers: self.server_list.deep_view(),
        }
    }
}

impl SiteInfo {
    /// The owner public key this site belongs to.
    pub fn owner_key(&self) -> (r: &[u8; 32])
        ensures
            r@ == self@.pubkey,
    {
        &self.pubkey
    }

    /// The blob hosts this site currently fetches from, in order.
    pub fn server_urls(&self) -> (r: &Vec<String>)
        ensures
            r.deep_view() == self@.servers,
    {
        &self.server_list
    }
}

impl Clone for SiteInfo {
    fn clone(&self) -> (r: Self)
        ensures
            r@ == self@,
    {
        let n = self.routes.len();
        let mut routes: Vec<SiteRoute> = Vec::new();
        let mut i: usize = 0;
        while i < n
            invariant
                n == self.routes.len(),
                i <= n,
                routes.len() == i,
                forall|j: int| 0 <= j < i ==> routes@[j]@ == self.routes@[j]@,
            decreases n - i,
        {
            routes.push(self.routes[i].clone());
            i = i + 1;
        }
        proof {
            lemma_routes_map_congruent(routes@, self.routes@);
        }
        SiteInfo {
            pubkey: self.pubkey,
            routes,
            server_list: crate::text::clone_strings(&self.server_list),
        }
    }
}

/// What one step of route resolution decided.
pub enum ServeStep {
    /// The path is already resolved; no query is needed.
    Resolved(SiteRoute),
    /// The path is unresolved: the caller must run this query and hand
    /// the events back to `load_route`.
    MustQuery(QueryFilter),
}

impl SiteInfo {
    /// A fresh site for `pubkey`: no routes, the default server list.
    pub fn new(pubkey: &[u8; 32]) -> (r: SiteInfo)
        ensures
            r@.pubkey == pubkey@,
            r@.routes == Map::<Seq<char>, RouteModel>::empty(),
            r@.servers == default_servers(),
    {
        let mut servers: Vec<String> = Vec::new();
        servers.push(String::from_str("https://nostr.download"));
        servers.push(String::from_str("https://blossom.band"));
        servers.push(String::from_str("https://24242.io"));
        servers.push(String::from_str("https://blossom.primal.net"));
        proof {
            assert(servers.deep_view() =~= default_servers());
        }
        SiteInfo { pubkey: *pubkey, routes: Vec::new(), server_list: servers }
    }

    /// Builds the site from the root-route query's result: `Ok(None)`
    /// when the owner has no root route (no site exists and nothing may
    /// be cached), `Err` when the root routing event is malformed. The
    /// server list starts as the default; the caller follows up with a
    /// server-list query and `load_server_list`.
    pub fn load(pubkey: &[u8; 32], root_events: &Vec<LogEvent>) -> (r: Result<
        Option<SiteInfo>,
        GatewayError,
    >)
        ensures
            route_parse(root_events@) is NoEvent <==> r == Ok::<Option<SiteInfo>, GatewayError>(
                None,
            ),
            route_parse(root_events@) is Malformed <==> r == Err::<
                Option<SiteInfo>,
                GatewayError,
            >(GatewayError::MalformedRoute),
            route_parse(root_events@) is Found ==> r is Ok,
            r matches Ok(Some(site)) ==> {
                &&& site@.pubkey == pubkey@
                &&& site@.servers == default_servers()
                &&& route_parse(root_events@) matches RouteParse::Found { key, created_at }
                    && site@.routes == Map::<Seq<char>, RouteModel>::empty().insert(
                    root_path(),
                    RouteModel { path: root_path(), key, created_at },
                )
            },
    {
        let mut site = SiteInfo::new(pubkey);
        match site.load_route("/index.html", root_events) {
            Ok(Some(_)) => Ok(Some(site)),
            Ok(None) => Ok(None),
            Err(e) => Err(e),
        }
    }

    /// Records the outcome of a routing query for `path`: inserts and
    /// returns the route the first event carries, reports `Ok(None)` when
    /// no event exists, and rejects a malformed event without touching
    /// the table.
    pub fn load_route(&mut self, path: &str, events: &Vec<LogEvent>) -> (r: Result<
        Option<SiteRoute>,
        GatewayError,
    >)
        ensures
            route_parse(events@) is NoEvent <==> r == Ok::<Option<SiteRoute>, GatewayError>(None),
            route_parse(events@) is Malformed <==> r == Err::<Option<SiteRoute>, GatewayError>(
                GatewayError::MalformedRoute,
            ),
            !(route_parse(events@) is Found) ==> final(self)@ == old(self)@,
            route_parse(events@) matches RouteParse::Found { key, created_at } ==> {
                &&& r matches Ok(Some(rt)) && rt@ == (RouteModel {
                    path: path@,
                    key,
                    created_at,
                })
                &&& final(self)@.routes == old(self)@.routes.insert(
                    path@,
                    RouteModel { path: path@, key, created_at },
                )
                &&& final(self)@.pubkey == old(self)@.pubkey
                &&& final(self)@.servers == old(self)@.servers
            },
    {
        if events.len() == 0 {
            return Ok(None);
        }
        let content = match find_tag(&events[0].tags, "x") {
            Some(Some(v)) => v,
            _ => {
                return Err(GatewayError::MalformedRoute);
            },
        };
        let decoded = match hexcodec::hex_decode(content.as_str()) {
            Some(d) => d,
            None => {
                return Err(GatewayError::MalformedRoute);
            },
        };
        if decoded.len() != 32 {
            return Err(GatewayError::MalformedRoute);
        }
        let mut key: [u8; 32] = [0u8; 32];
        let mut i: usize = 0;
        while i < 32
            invariant
                i <= 32,
                decoded@.len() == 32,
                forall|j: int| 0 <= j < i ==> key@[j] == decoded@[j],
            decreases 32 - i,
        {
            key[i] = decoded[i];
            i = i + 1;
        }
        proof {
            assert(key@ =~= decoded@);
        }
        let route = SiteRoute {
            path: String::from_str(path),
            key,
            created_at: events[0].created_at,
        };
        let ghost oldroutes = self.routes@;
        let out = route.clone();
        self.routes.push(route);
        proof {
            assert(self.routes@.drop_last() =~= oldroutes);
        }
        Ok(Some(out))
    }

    /// Records the outcome of the server-list query: no event leaves the
    /// default (or current) list untouched; an event replaces the list
    /// wholesale with its valid `server` tags, even when none are valid.
    pub fn load_server_list(&mut self, events: &Vec<LogEvent>)
        ensures
            final(self)@ == (SiteModel { servers: servers_after(old(self)@, events@), ..old(
                self,
            )@ }),
            events@.len() == 0 ==> final(self)@ == old(self)@,
    {
        if events.len() > 0 {
            self.server_list = parse_server_tags(&events[0].tags);
        }
    }

    /// The already-resolved route for `path`, if any.
    pub fn get_route(&self, path: &str) -> (r: Option<SiteRoute>)
        ensures
            r matches Some(rt) ==> self@.routes.contains_key(path@) && rt@ == self@.routes[path@],
            r is None ==> !self@.routes.contains_key(path@),
    {
        let n = self.routes.len();
        let mut best: Option<usize> = None;
        let mut i: usize = 0;
        while i < n
            invariant
                n == self.routes.len(),
                i <= n,
                best matches Some(b) ==> b < i && self.routes@[b as int].path@ == path@,
                best matches Some(b) ==> forall|j: int|
                    b < j < i ==> self.routes@[j].path@ != path@,
                best is None ==> forall|j: int| 0 <= j < i ==> self.routes@[j].path@ != path@,
            decreases n - i,
        {
            if str_eq(self.routes[i].path.as_str(), path) {
                best = Some(i);
            }
            i = i + 1;
        }
        match best {
            Some(b) => {
                proof {
                    lemma_routes_map_decided(self.routes@, path@, b as int);
                }
                Some(self.routes[b].clone())
            },
            None => {
                proof {
                    lemma_routes_map_absent(self.routes@, path@);
                }
                None
            },
        }
    }

    /// One step of serving `path`: an already-resolved route is served
    /// from the table with no query; an unresolved path yields the exact
    /// routing query to run.
    pub fn serve_route(&self, path: &str) -> (r: ServeStep)
        ensures
            self@.routes.contains_key(path@) ==> (r matches ServeStep::Resolved(rt) && rt@
                == self@.routes[path@]),
            !self@.routes.contains_key(path@) ==> (r matches ServeStep::MustQuery(q) && {
                &&& q.kind == crate::events::ROUTE_EVENT_KIND
                &&& q.author@ == self@.pubkey
                &&& q.identifier.deep_view() == Some(path@)
                &&& q.timeout_secs == crate::events::QUERY_TIMEOUT_SECS
            }),
    {
        match self.get_route(path) {
            Some(rt) => ServeStep::Resolved(rt),
            None => ServeStep::MustQuery(QueryFilter::route_query(&self.pubkey, path)),
        }
    }
}

} // verus!
