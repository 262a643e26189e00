//! The event-log vocabulary: events, tags, query filters, and the two
//! event kinds the gateway consumes.
//!
//! A routing event (kind 34128) binds one absolute path to one content
//! hash, carried as 64 hex digits in the first `x` tag. A server-list
//! event (kind 10063) carries the owner's blob hosts in its `server` tags.
//! The surrounding process runs the queries; the functions here only
//! describe the filters and read the returned events.

use vstd::prelude::*;
use vstd::seq_lib::*;
use crate::hexcodec::{is_hex_string, hex_to_bytes};
use crate::text::str_eq;
use crate::weburl::{url_normal_form, normalize_url};

verus! {

/// Event kind of a routing record: path to content hash, one per owner
/// and path.
pub const ROUTE_EVENT_KIND: u16 = 34128;

/// Event kind of an owner's published blob-host list.
pub const SERVER_LIST_EVENT_KIND: u16 = 10063;

/// Fixed bound, in seconds, on every event-log query.
pub const QUERY_TIMEOUT_SECS: u64 = 10;

/// One tag of an event: a name and an optional first content entry.
pub struct EventTag {
    pub name: String,
    pub value: Option<String>,
}

/// One signed record from the event log, already verified and stripped to
/// what routing needs.
pub struct LogEvent {
    /// The event kind.
    pub kind: u16,
    /// The authoring public key.
    pub author: [u8; 32],
    /// Unix timestamp of creation.
    pub created_at: u64,
    /// The event's tags, in order.
    pub tags: Vec<EventTag>,
}

/// A query against the event log: kind and author, optionally narrowed to
/// one path identifier, bounded by a fixed timeout.
pub struct QueryFilter {
    pub kind: u16,
    pub author: [u8; 32],
    pub identifier: Option<String>,
    pub timeout_secs: u64,
}

/// The value of the first tag named `name`: `None` when no such tag
/// exists, `Some(v)` for the first one's (optional) content.
pub open spec fn find_tag_value(tags: Seq<EventTag>, name: Seq<char>) -> Option<
    Option<Seq<char>>,
>
    decreases tags.len(),
{
    if tags.len() == 0 {
        None
    } else if tags[0].name@ == name {
        Some(tags[0].value.deep_view())
    } else {
        find_tag_value(tags.drop_first(), name)
    }
}

/// What the first event of a routing query yields.
pub enum RouteParse {
    /// The query returned no event: the path has no route.
    NoEvent,
    /// An event exists but its `x` tag is missing or is not 32 bytes of
    /// hex: the event cannot be trusted.
    Malformed,
    /// The route's content hash and the event's creation time.
    Found { key: Seq<u8>, created_at: u64 },
}

/// The route denoted by a routing query's result: the first returned
/// event decides, and its first `x` tag must hold exactly 64 hex digits.
pub open spec fn route_parse(events: Seq<LogEvent>) -> RouteParse {
    if events.len() == 0 {
        RouteParse::NoEvent
    } else {
        match find_tag_value(events[0].tags@, "x"@) {
            Some(Some(v)) => if is_hex_string(v) && hex_to_bytes(v).len() == 32 {
                RouteParse::Found { key: hex_to_bytes(v), created_at: events[0].created_at }
            } else {
                RouteParse::Malformed
            },
            _ => RouteParse::Malformed,
        }
    }
}

/// Finds the first tag named `name` and clones its content.
pub fn find_tag(tags: &Vec<EventTag>, name: &str) -> (r: Option<Option<String>>)
    ensures
        r.deep_view() == find_tag_value(tags@, name@),
{
    let n = tags.len();
    let mut i: usize = 0;
    proof {
        assert(tags@.skip(0) =~= tags@);
    }
    while i < n
        invariant
            n == tags.len(),
            i <= n,
            find_tag_value(tags@, name@) == find_tag_value(tags@.skip(i as int), name@),
            forall|j: int| 0 <= j < i ==> tags@[j].name@ != name@,
        decreases n - i,
    {
        proof {
            assert(tags@.skip(i as int)[0] == tags@[i as int]);
        }
        if str_eq(tags[i].name.as_str(), name) {
            let v: Option<String> = match &tags[i].value {
                Some(s) => Some(s.clone()),
                None => None,
            };
            assert(v.deep_view() == tags@[i as int].value.deep_view());
            return Some(v);
        }
        proof {
            assert(tags@.skip(i as int).drop_first() =~= tags@.skip(i + 1));
        }
        i = i + 1;
    }
    proof {
        assert(tags@.skip(n as int).len() == 0);
    }
    None
}

/// The URL a single tag contributes to the server list: the normalized
/// content of a `server` tag, when it parses.
pub open spec fn server_tag_url(t: EventTag) -> Option<Seq<char>> {
    if t.name@ == "server"@ {
        match t.value {
            Some(v) => url_normal_form(v@),
            None => None,
        }
    } else {
        None
    }
}

/// `server_tag_url` as a named spec closure, for use with `filter_map`.
pub open spec fn server_tag_url_fn() -> spec_fn(EventTag) -> Option<Seq<char>> {
    |t: EventTag| server_tag_url(t)
}

/// The blob-host list published by an event's tags: the normalized URLs
/// of its `server` tags, in order, entries that do not parse discarded.
pub open spec fn server_urls_of(tags: Seq<EventTag>) -> Seq<Seq<char>> {
    tags.filter_map(server_tag_url_fn())
}

/// Collects the valid `server` tag URLs of an event, in order.
pub fn parse_server_tags(tags: &Vec<EventTag>) -> (r: Vec<String>)
    ensures
        r.deep_view() == server_urls_of(tags@),
{
    let n = tags.len();
    let mut out: Vec<String> = Vec::new();
    let mut i: usize = 0;
    proof {
        assert(tags@.take(0).filter_map(server_tag_url_fn()) =~= Seq::<Seq<char>>::empty());
        assert(out.deep_view() =~= Seq::<Seq<char>>::empty());
    }
    while i < n
        invariant
            n == tags.len(),
            i <= n,
            out.deep_view() == tags@.take(i as int).filter_map(server_tag_url_fn()),
        decreases n - i,
    {
        let ghost prev = out.deep_view();
        let keep: Option<String> = if str_eq(tags[i].name.as_str(), "server") {
            match &tags[i].value {
                Some(v) => normalize_url(v.as_str()),
                None => None,
            }
        } else {
            None
        };
        proof {
            assert(keep.deep_view() == server_tag_url(tags@[i as int]));
        }
        if let Some(u) = keep {
            let ghost uv = u@;
            out.push(u);
            proof {
                assert(out.deep_view() =~= prev.push(uv));
            }
        }
        proof {
            assert(tags@.take(i + 1).drop_last() =~= tags@.take(i as int));
            assert(tags@.take(i + 1).last() == tags@[i as int]);
            assert(out.deep_view() =~= tags@.take(i + 1).filter_map(server_tag_url_fn()));
        }
        i = i + 1;
    }
    proof {
        assert(tags@.take(n as int) =~= tags@);
    }
    out
}

impl QueryFilter {
    /// The query for an owner's routing event at one path.
    pub fn route_query(author: &[u8; 32], path: &str) -> (q: QueryFilter)
        ensures
            q.kind == ROUTE_EVENT_KIND,
            q.author@ == author@,
            q.identifier.deep_view() == Some(path@),
            q.timeout_secs == QUERY_TIMEOUT_SECS,
    {
        QueryFilter {
            kind: ROUTE_EVENT_KIND,
            author: *author,
            identifier: Some(String::from_str(path)),
            timeout_secs: QUERY_TIMEOUT_SECS,
        }
    }

    /// The query for an owner's server-list event.
    pub fn server_list_query(author: &[u8; 32]) -> (q: QueryFilter)
        ensures
            q.kind == SERVER_LIST_EVENT_KIND,
            q.author@ == author@,
            q.identifier.deep_view() == Option::<Seq<char>>::None,
            q.timeout_secs == QUERY_TIMEOUT_SECS,
    {
        QueryFilter {
            kind: SERVER_LIST_EVENT_KIND,
            author: *author,
            identifier: None,
            timeout_secs: QUERY_TIMEOUT_SECS,
        }
    }
}

} // verus!
