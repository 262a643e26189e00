//! Host parsing and identity resolution.

use nsite_gateway::identity::{AliasTable, HostIdentity, resolve_identity};
use nsite_gateway::host::extract_subdomain;
use nsite_gateway::GatewayError;

/// The 32-byte key 0x01..0x20, as its bech32 public-key form.
const NPUB: &str = "npub1qypqxpq9qcrsszg2pvxq6rs0zqg3yyc5z5tpwxqergd3c8g7rusqdknev3";

/// The same 32 bytes encoded as a note id: a decodable entity that is
/// not a public key.
const NOTE: &str = "note1qypqxpq9qcrsszg2pvxq6rs0zqg3yyc5z5tpwxqergd3c8g7rusquusy4e";

fn test_key() -> [u8; 32] {
    let mut k = [0u8; 32];
    for i in 0..32 {
        k[i] = (i + 1) as u8;
    }
    k
}

#[test]
fn three_labels_extract_subdomain() {
    assert_eq!(extract_subdomain("abc.example.com"), Some("abc".to_string()));
}

#[test]
fn two_labels_mean_no_subdomain() {
    assert_eq!(extract_subdomain("example.com"), None);
}

#[test]
fn port_is_stripped_before_splitting() {
    assert_eq!(extract_subdomain("abc.example.com:8080"), Some("abc".to_string()));
}

#[test]
fn one_label_means_no_subdomain() {
    assert_eq!(extract_subdomain("localhost:8080"), None);
}

#[test]
fn npub_subdomain_resolves_to_its_key() {
    let aliases = AliasTable::new();
    let host = format!("{}.example.com", NPUB);
    match resolve_identity(&host, &aliases) {
        Ok(HostIdentity::Owner(k)) => assert_eq!(k, test_key()),
        _ => panic!("expected the npub's own key"),
    }
}

#[test]
fn non_key_entity_is_invalid_identity() {
    let aliases = AliasTable::new();
    let host = format!("{}.example.com", NOTE);
    assert_eq!(
        resolve_identity(&host, &aliases).err(),
        Some(GatewayError::InvalidIdentity)
    );
}

#[test]
fn unknown_alias_is_reported() {
    let aliases = AliasTable::new();
    match resolve_identity("mysite.example.com", &aliases) {
        Err(GatewayError::UnknownAlias) => {}
        _ => panic!("expected an unknown alias"),
    }
}

#[test]
fn known_alias_resolves() {
    let mut aliases = AliasTable::new();
    aliases.set_alias("mysite".to_string(), test_key());
    match resolve_identity("mysite.example.com", &aliases) {
        Ok(HostIdentity::Owner(k)) => assert_eq!(k, test_key()),
        _ => panic!("expected the aliased key"),
    }
}

#[test]
fn alias_rebinding_last_wins() {
    let mut aliases = AliasTable::new();
    aliases.set_alias("mysite".to_string(), [7u8; 32]);
    aliases.set_alias("mysite".to_string(), test_key());
    assert_eq!(aliases.lookup("mysite"), Some(test_key()));
    assert_eq!(aliases.lookup("other"), None);
}

#[test]
fn no_subdomain_passes_through() {
    let aliases = AliasTable::new();
    match resolve_identity("example.com", &aliases) {
        Ok(HostIdentity::NoSubdomain) => {}
        _ => panic!("expected pass-through"),
    }
}
