//! Content-addressed retrieval and the on-disk cache layout.
//!
//! A cached file lives at `nsite/<first-two-hex-digits>/<full-hex-hash>`
//! below the cache root, with the extension of the route's path appended
//! when it has one. The path is a pure function of hash and extension:
//! existence of the file is the sole cache-hit signal. On a miss the blob
//! hosts are tried strictly in order; the surrounding process performs
//! each HTTP GET and reports back, and the session here decides what to
//! try next. A host is never retried, and the first success ends the
//! session.

use vstd::prelude::*;
use crate::hexcodec::{bytes_to_hex, lemma_bytes_to_hex_len, hex_encode};
use crate::site::{SiteRoute, RouteModel};
use crate::text::{find_last_char, clone_strings};
use crate::weburl::{url_joined, join_url};

verus! {

/// The file-name part of a path: everything after the last `/`.
pub open spec fn file_name_of(p: Seq<char>) -> Seq<char> {
    match p.index_of_last('/') {
        Some(i) => p.skip(i + 1),
        None => p,
    }
}

/// The extension of a path's file name: what follows the last `.`, when
/// that dot is neither leading nor trailing. A file name with no dot, a
/// leading-dot name and a trailing dot all mean "no extension".
pub open spec fn extension_of(p: Seq<char>) -> Option<Seq<char>> {
    let f = file_name_of(p);
    match f.index_of_last('.') {
        Some(i) => if 0 < i && i + 1 < f.len() {
            Some(f.skip(i + 1))
        } else {
            None
        },
        None => None,
    }
}

/// The cache path of a content hash, relative to the cache root: shard
/// directory from the first two hex digits, file name the full hex hash,
/// extension copied from the route's path.
pub open spec fn cache_rel_path_spec(key: Seq<u8>, route_path: Seq<char>) -> Seq<char> {
    let hex = bytes_to_hex(key);
    let base = "nsite/"@ + hex.take(2) + "/"@ + hex;
    match extension_of(route_path) {
        Some(e) => base + "."@ + e,
        None => base,
    }
}

/// The cache path depends on the hash and the extension alone: routes
/// that share a content hash and an extension share one cache file.
pub proof fn lemma_cache_path_pure(key: Seq<u8>, p1: Seq<char>, p2: Seq<char>)
    requires
        extension_of(p1) == extension_of(p2),
    ensures
        cache_rel_path_spec(key, p1) == cache_rel_path_spec(key, p2),
{
}

/// Extracts the extension of `path`, as `extension_of` describes.
pub fn extension_exec(path: &str) -> (r: Option<String>)
    ensures
        r.deep_view() == extension_of(path@),
{
    let n: usize = path.unicode_len();
    let file: &str = match find_last_char(path, '/') {
        Some(i) => {
            proof {
                path@.index_of_last_ensures('/');
            }
            path.substring_char(i + 1, n)
        },
        None => {
            proof {
                assert(path@.skip(0) =~= path@);
            }
            path
        },
    };
    proof {
        assert(file@ == file_name_of(path@));
    }
    let fl: usize = file.unicode_len();
    match find_last_char(file, '.') {
        Some(i) => {
            proof {
                file@.index_of_last_ensures('.');
            }
            if 0 < i && i + 1 < fl {
                Some(String::from_str(file.substring_char(i + 1, fl)))
            } else {
                None
            }
        },
        None => None,
    }
}

/// Builds the relative cache path for a content hash and a route path.
pub fn cache_rel_path(key: &[u8; 32], route_path: &str) -> (r: String)
    ensures
        r@ == cache_rel_path_spec(key@, route_path@),
{
    let hex = hex_encode(key.as_slice());
    proof {
        lemma_bytes_to_hex_len(key@);
    }
    let shard = hex.as_str().substring_char(0, 2);
    let mut out = String::from_str("nsite/");
    out.append(shard);
    out.append("/");
    out.append(hex.as_str());
    match extension_exec(route_path) {
        Some(e) => {
            out.append(".");
            out.append(e.as_str());
            proof {
                assert(out@ =~= cache_rel_path_spec(key@, route_path@));
            }
            out
        },
        None => {
            proof {
                assert(out@ =~= cache_rel_path_spec(key@, route_path@));
            }
            out
        },
    }
}

/// The mathematical state of a fetch session.
pub struct FetchModel {
    /// Where the bytes will live, relative to the cache root.
    pub rel_path: Seq<char>,
    /// The hash's hex form, the name requested of each host.
    pub key_hex: Seq<char>,
    /// The blob hosts, in fallback order.
    pub servers: Seq<Seq<char>>,
    /// The next host to try.
    pub next_index: int,
}

/// The session state after one failed attempt: the next host, everything
/// else untouched. A failed host is left behind for good.
pub open spec fn after_failure(m: FetchModel) -> FetchModel {
    FetchModel { next_index: m.next_index + 1, ..m }
}

/// What a fetch session does next, as a mathematical value.
pub enum ActionModel {
    /// Request the hash from this host at this URL.
    Get { server_index: int, url: Seq<char> },
    /// The next host's base URL would not join with the hash: the fetch
    /// fails as a whole.
    JoinFailed,
    /// Every host has been tried: the content is unavailable.
    Exhausted,
}

/// The next action of a session: the next untried host in order, the
/// join failure if its URL cannot carry the hash, or exhaustion once no
/// host is left.
pub open spec fn action_of(m: FetchModel) -> ActionModel {
    if m.next_index >= m.servers.len() {
        ActionModel::Exhausted
    } else {
        match url_joined(m.servers[m.next_index], m.key_hex) {
            Some(u) => ActionModel::Get { server_index: m.next_index, url: u },
            None => ActionModel::JoinFailed,
        }
    }
}

/// With no usable host at all — an owner published an empty list — every
/// fetch gives up at once: no host is contacted and the content is
/// reported unavailable.
pub proof fn lemma_empty_server_list_exhausts(m: FetchModel)
    requires
        m.servers.len() == 0,
        m.next_index >= 0,
    ensures
        action_of(m) is Exhausted,
{
}

/// Fallback walks the host list strictly in order: with two hosts, the
/// first is asked first; once it fails the second is asked; a host that
/// failed is never asked again, because the index only ever grows.
pub proof fn lemma_fallback_in_order(m: FetchModel)
    requires
        m.next_index == 0,
        m.servers.len() == 2,
        url_joined(m.servers[0], m.key_hex) is Some,
        url_joined(m.servers[1], m.key_hex) is Some,
    ensures
        action_of(m) == (ActionModel::Get {
            server_index: 0,
            url: url_joined(m.servers[0], m.key_hex).unwrap(),
        }),
        action_of(after_failure(m)) == (ActionModel::Get {
            server_index: 1,
            url: url_joined(m.servers[1], m.key_hex).unwrap(),
        }),
        after_failure(m).next_index > m.next_index,
{
}

/// An in-progress content fetch: cache destination, hash, hosts still to
/// try. The surrounding process asks `next_action`, performs the GET,
/// and either writes the body to the cache path (ending the session) or
/// records the failure and asks again.
pub struct FetchSession {
    rel_path: String,
    key_hex: String,
    servers: Vec<String>,
    next_index: usize,
}

impl View for FetchSession {
    type V = FetchModel;

    closed spec fn view(&self) -> FetchModel {
        FetchModel {
            rel_path: self.rel_path@,
            key_hex: self.key_hex@,
            servers: self.servers.deep_view(),
            next_index: self.next_index as int,
        }
    }
}

/// The executable form of a session's next action.
pub enum FetchAction {
    /// Request the hash from the host at `server_index` via `url`.
    Get { server_index: usize, url: String },
    /// The base URL would not join with the hash: fail the fetch.
    JoinFailed,
    /// All hosts tried without success: the content is unavailable.
    Exhausted,
}

impl FetchSession {
    /// Where the fetched bytes belong, relative to the cache root. The
    /// file's existence there is the sole cache-hit signal.
    pub fn cache_path(&self) -> (r: &str)
        ensures
            r@ == self@.rel_path,
    {
        self.rel_path.as_str()
    }

    /// The next attempt, if any.
    pub fn next_action(&self) -> (a: FetchAction)
        ensures
            ({
                match a {
                    FetchAction::Get { server_index, url } => action_of(self@)
                        == (ActionModel::Get { server_index: server_index as int, url: url@ }),
                    FetchAction::JoinFailed => action_of(self@) is JoinFailed,
                    FetchAction::Exhausted => action_of(self@) is Exhausted,
                }
            }),
    {
        if self.next_index >= self.servers.len() {
            FetchAction::Exhausted
        } else {
            proof {
                assert(self.servers.deep_view()[self.next_index as int]
                    == self.servers@[self.next_index as int]@);
            }
            match join_url(self.servers[self.next_index].as_str(), self.key_hex.as_str()) {
                Some(u) => FetchAction::Get { server_index: self.next_index, url: u },
                None => FetchAction::JoinFailed,
            }
        }
    }

    /// Records that the current host failed (bad status or transport
    /// error): moves past it for good.
    pub fn record_failure(&mut self)
        requires
            old(self)@.next_index < old(self)@.servers.len(),
        ensures
            final(self)@ == after_failure(old(self)@),
    {
        let n = self.servers.len();
        proof {
            assert(self.servers.deep_view().len() == self.servers@.len());
        }
        assert(self.next_index < n);
        self.next_index = self.next_index + 1;
    }
}

impl SiteRoute {
    /// Starts loading this route's file: the returned session holds the
    /// cache path for this hash and the hosts to try in order. The
    /// caller serves the cached file if it already exists, and otherwise
    /// drives the session's attempts.
    pub fn load_cached(&self, server_list: &Vec<String>) -> (s: FetchSession)
        ensures
            s@ == (FetchModel {
                rel_path: cache_rel_path_spec(self.key@, self.path@),
                key_hex: bytes_to_hex(self.key@),
                servers: server_list.deep_view(),
                next_index: 0,
            }),
    {
        FetchSession {
            rel_path: cache_rel_path(&self.key, self.path.as_str()),
            key_hex: hex_encode(self.key.as_slice()),
            servers: clone_strings(server_list),
            next_index: 0,
        }
    }
}

/// Repeated serving of an already-resolved path is idempotent: the
/// route the table holds is unique, so every repetition serves the same
/// route and hence the same cache file, and the serving step issues no
/// query and no fetch once that file exists.
pub proof fn lemma_serve_route_idempotent(
    m: crate::site::SiteModel,
    p: Seq<char>,
    r1: RouteModel,
    r2: RouteModel,
)
    requires
        m.routes.contains_key(p),
        r1 == m.routes[p],
        r2 == m.routes[p],
    ensures
        r1 == r2,
        cache_rel_path_spec(r1.key, r1.path) == cache_rel_path_spec(r2.key, r2.path),
{
}

} // verus!
