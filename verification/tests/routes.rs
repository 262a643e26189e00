//! Route resolution and server-list handling against event-log results.

use nsite_gateway::events::{EventTag, LogEvent, QueryFilter};
use nsite_gateway::site::{SiteInfo, ServeStep};
use nsite_gateway::GatewayError;

fn owner() -> [u8; 32] {
    [0x11u8; 32]
}

fn tag(name: &str, value: Option<&str>) -> EventTag {
    EventTag { name: name.to_string(), value: value.map(|v| v.to_string()) }
}

fn route_event(hash_hex: Option<&str>, created_at: u64) -> LogEvent {
    let mut tags = vec![tag("d", Some("/index.html"))];
    if let Some(h) = hash_hex {
        tags.push(tag("x", Some(h)));
    }
    LogEvent { kind: 34128, author: owner(), created_at, tags }
}

const GOOD_HASH: &str = "00112233445566778899aabbccddeeff00112233445566778899aabbccddeeff";

#[test]
fn no_event_means_no_route() {
    let mut site = SiteInfo::new(&owner());
    let r = site.load_route("/about.html", &vec![]);
    assert!(matches!(r, Ok(None)));
    assert!(site.get_route("/about.html").is_none());
}

#[test]
fn valid_event_resolves_and_is_remembered() {
    let mut site = SiteInfo::new(&owner());
    let events = vec![route_event(Some(GOOD_HASH), 777)];
    let route = site.load_route("/index.html", &events).unwrap().unwrap();
    assert_eq!(route.path, "/index.html");
    assert_eq!(route.created_at, 777);
    assert_eq!(route.key[0], 0x00);
    assert_eq!(route.key[1], 0x11);
    assert_eq!(route.key[31], 0xff);
    let again = site.get_route("/index.html").unwrap();
    assert_eq!(again.key, route.key);
}

#[test]
fn missing_x_tag_is_malformed_not_absent() {
    let mut site = SiteInfo::new(&owner());
    let events = vec![route_event(None, 1)];
    assert_eq!(site.load_route("/index.html", &events).err(), Some(GatewayError::MalformedRoute));
}

#[test]
fn non_hex_x_tag_is_malformed() {
    let mut site = SiteInfo::new(&owner());
    let events = vec![route_event(Some("zz112233445566778899aabbccddeeff00112233445566778899aabbccddeezz"), 1)];
    assert_eq!(site.load_route("/index.html", &events).err(), Some(GatewayError::MalformedRoute));
}

#[test]
fn short_hex_x_tag_is_malformed() {
    let mut site = SiteInfo::new(&owner());
    let events = vec![route_event(Some("00112233"), 1)];
    assert_eq!(site.load_route("/index.html", &events).err(), Some(GatewayError::MalformedRoute));
}

#[test]
fn uppercase_hex_decodes_to_the_same_key() {
    let mut a = SiteInfo::new(&owner());
    let mut b = SiteInfo::new(&owner());
    let lower = a.load_route("/index.html", &vec![route_event(Some(GOOD_HASH), 1)]);
    let upper = b.load_route(
        "/index.html",
        &vec![route_event(Some(GOOD_HASH.to_uppercase().as_str()), 1)],
    );
    assert_eq!(lower.unwrap().unwrap().key, upper.unwrap().unwrap().key);
}

#[test]
fn load_without_root_route_yields_no_site() {
    let r = SiteInfo::load(&owner(), &vec![]);
    assert!(matches!(r, Ok(None)));
}

#[test]
fn load_with_root_route_yields_site() {
    let events = vec![route_event(Some(GOOD_HASH), 5)];
    let site = SiteInfo::load(&owner(), &events).unwrap().unwrap();
    assert_eq!(*site.owner_key(), owner());
    assert!(site.get_route("/index.html").is_some());
}

#[test]
fn default_server_list_in_order() {
    let site = SiteInfo::new(&owner());
    let urls: Vec<&str> = site.server_urls().iter().map(|s| s.as_str()).collect();
    assert_eq!(
        urls,
        vec![
            "https://nostr.download",
            "https://blossom.band",
            "https://24242.io",
            "https://blossom.primal.net",
        ]
    );
}

#[test]
fn no_server_list_event_keeps_default() {
    let mut site = SiteInfo::new(&owner());
    let before: Vec<String> = site.server_urls().clone();
    site.load_server_list(&vec![]);
    assert_eq!(*site.server_urls(), before);
    assert_eq!(site.server_urls().len(), 4);
}

#[test]
fn published_list_replaces_wholesale() {
    let mut site = SiteInfo::new(&owner());
    let ev = LogEvent {
        kind: 10063,
        author: owner(),
        created_at: 9,
        tags: vec![
            tag("server", Some("https://example.com")),
            tag("server", Some("not a url")),
            tag("relay", Some("wss://example.org")),
            tag("server", None),
            tag("server", Some("https://blobs.example.net/base")),
        ],
    };
    site.load_server_list(&vec![ev]);
    let urls: Vec<&str> = site.server_urls().iter().map(|s| s.as_str()).collect();
    assert_eq!(urls, vec!["https://example.com/", "https://blobs.example.net/base"]);
}

#[test]
fn published_empty_list_is_kept_empty() {
    let mut site = SiteInfo::new(&owner());
    let ev = LogEvent {
        kind: 10063,
        author: owner(),
        created_at: 9,
        tags: vec![tag("server", Some("not a url"))],
    };
    site.load_server_list(&vec![ev]);
    assert!(site.server_urls().is_empty());
}

#[test]
fn unresolved_path_asks_for_the_right_query() {
    let site = SiteInfo::new(&owner());
    match site.serve_route("/page.html") {
        ServeStep::MustQuery(q) => {
            assert_eq!(q.kind, 34128);
            assert_eq!(q.author, owner());
            assert_eq!(q.identifier.as_deref(), Some("/page.html"));
            assert_eq!(q.timeout_secs, 10);
        }
        _ => panic!("expected a query"),
    }
}

#[test]
fn server_list_query_shape() {
    let q = QueryFilter::server_list_query(&owner());
    assert_eq!(q.kind, 10063);
    assert_eq!(q.author, owner());
    assert!(q.identifier.is_none());
    assert_eq!(q.timeout_secs, 10);
}
