//! The owner directory: caching exactly the sites that exist.

use nsite_gateway::directory::SiteDirectory;
use nsite_gateway::events::{EventTag, LogEvent};
use nsite_gateway::site::SiteInfo;

fn owner() -> [u8; 32] {
    [0x33u8; 32]
}

fn root_event() -> LogEvent {
    LogEvent {
        kind: 34128,
        author: owner(),
        created_at: 1,
        tags: vec![EventTag {
            name: "x".to_string(),
            value: Some(
                "00112233445566778899aabbccddeeff00112233445566778899aabbccddeeff".to_string(),
            ),
        }],
    }
}

#[test]
fn no_root_route_caches_nothing() {
    let mut dir = SiteDirectory::new();
    let loaded = SiteInfo::load(&owner(), &vec![]).unwrap();
    assert!(loaded.is_none());
    dir.install(loaded);
    assert!(dir.get_cloned(&owner()).is_none());
}

#[test]
fn loaded_site_is_cached_under_its_owner() {
    let mut dir = SiteDirectory::new();
    let loaded = SiteInfo::load(&owner(), &vec![root_event()]).unwrap();
    assert!(loaded.is_some());
    dir.install(loaded);
    let cached = dir.get_cloned(&owner()).expect("the site should be cached");
    assert_eq!(*cached.owner_key(), owner());
    assert!(cached.get_route("/index.html").is_some());
    assert!(dir.get_cloned(&[0x44u8; 32]).is_none());
}

#[test]
fn reloading_an_owner_replaces_its_entry() {
    let mut dir = SiteDirectory::new();
    dir.install(SiteInfo::load(&owner(), &vec![root_event()]).unwrap());

    let mut second = SiteInfo::load(&owner(), &vec![root_event()]).unwrap().unwrap();
    second.load_server_list(&vec![LogEvent {
        kind: 10063,
        author: owner(),
        created_at: 2,
        tags: vec![EventTag {
            name: "server".to_string(),
            value: Some("https://only.example".to_string()),
        }],
    }]);
    dir.install(Some(second));

    let cached = dir.get_cloned(&owner()).unwrap();
    assert_eq!(cached.server_urls().len(), 1);
    assert_eq!(cached.server_urls()[0], "https://only.example/");
}
