//! Cache-path layout and the host-fallback fetch session.

use nsite_gateway::cache::{cache_rel_path, FetchAction};
use nsite_gateway::site::{SiteInfo, SiteRoute, ServeStep, normalize_request_path};

fn key_a() -> [u8; 32] {
    [0xabu8; 32]
}

const HEX_A: &str = "abababababababababababababababababababababababababababababababab";

fn route_at(path: &str) -> SiteRoute {
    SiteRoute { path: path.to_string(), key: key_a(), created_at: 1 }
}

#[test]
fn cache_path_is_sharded_hex_with_extension() {
    let p = cache_rel_path(&key_a(), "/pages/about.html");
    assert_eq!(p, format!("nsite/ab/{}.html", HEX_A));
}

#[test]
fn cache_path_without_extension() {
    let p = cache_rel_path(&key_a(), "/README");
    assert_eq!(p, format!("nsite/ab/{}", HEX_A));
}

#[test]
fn dot_in_directory_is_no_extension() {
    let p = cache_rel_path(&key_a(), "/v1.2/README");
    assert_eq!(p, format!("nsite/ab/{}", HEX_A));
}

#[test]
fn leading_dot_file_has_no_extension() {
    let p = cache_rel_path(&key_a(), "/.wellknown");
    assert_eq!(p, format!("nsite/ab/{}", HEX_A));
}

#[test]
fn trailing_dot_is_no_extension() {
    let p = cache_rel_path(&key_a(), "/name.");
    assert_eq!(p, format!("nsite/ab/{}", HEX_A));
}

#[test]
fn same_hash_and_extension_share_one_cache_file() {
    let p1 = cache_rel_path(&key_a(), "/a/one.png");
    let p2 = cache_rel_path(&key_a(), "/elsewhere/two.png");
    assert_eq!(p1, p2);
}

#[test]
fn fallback_tries_hosts_in_order_and_never_retries() {
    let servers = vec!["https://a.example".to_string(), "https://b.example".to_string()];
    let route = route_at("/index.html");
    let mut session = route.load_cached(&servers);
    assert_eq!(session.cache_path(), format!("nsite/ab/{}.html", HEX_A));

    match session.next_action() {
        FetchAction::Get { server_index, url } => {
            assert_eq!(server_index, 0);
            assert_eq!(url, format!("https://a.example/{}", HEX_A));
        }
        _ => panic!("expected the first host"),
    }
    // The first host answered 404: move on; it is never asked again.
    session.record_failure();
    match session.next_action() {
        FetchAction::Get { server_index, url } => {
            assert_eq!(server_index, 1);
            assert_eq!(url, format!("https://b.example/{}", HEX_A));
        }
        _ => panic!("expected the second host"),
    }
    // The second host answered 404 as well: nothing is left.
    session.record_failure();
    assert!(matches!(session.next_action(), FetchAction::Exhausted));
}

#[test]
fn empty_server_list_exhausts_at_once() {
    let route = route_at("/index.html");
    let session = route.load_cached(&vec![]);
    assert!(matches!(session.next_action(), FetchAction::Exhausted));
}

#[test]
fn resolved_route_serves_the_same_path_every_time() {
    let owner = [0x22u8; 32];
    let mut site = SiteInfo::new(&owner);
    let hex = HEX_A;
    let ev = nsite_gateway::events::LogEvent {
        kind: 34128,
        author: owner,
        created_at: 3,
        tags: vec![nsite_gateway::events::EventTag {
            name: "x".to_string(),
            value: Some(hex.to_string()),
        }],
    };
    site.load_route("/index.html", &vec![ev]).unwrap().unwrap();

    let mut paths = Vec::new();
    for _ in 0..2 {
        match site.serve_route("/index.html") {
            ServeStep::Resolved(r) => {
                let session = r.load_cached(site.server_urls());
                paths.push(session.cache_path().to_string());
            }
            _ => panic!("expected no query for a resolved route"),
        }
    }
    assert_eq!(paths[0], paths[1]);
    assert_eq!(paths[0], format!("nsite/ab/{}.html", HEX_A));
}

#[test]
fn empty_request_path_is_the_root_route() {
    assert_eq!(normalize_request_path(""), "/index.html");
    assert_eq!(normalize_request_path("pages/about.html"), "/pages/about.html");
}
