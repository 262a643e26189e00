//! Turning a subdomain into an owner identity.
//!
//! A subdomain either decodes as a self-describing identity string — a
//! bare public key, or a profile record embedding one — or is looked up in
//! the alias table. A string that decodes to some other entity kind is an
//! invalid identity; one that does not decode at all and is no known alias
//! is unknown.

use vstd::prelude::*;
use nostr_sdk::prelude::FromBech32;
use crate::errors::GatewayError;
use crate::host::subdomain_of;
use crate::text::str_eq;

verus! {

/// What a subdomain's identity string decodes to.
pub enum IdentityDecode {
    /// A bare public key.
    DirectKey([u8; 32]),
    /// A profile record; the embedded public key.
    ProfileKey([u8; 32]),
    /// Some other entity kind: not usable as a site owner.
    OtherEntity,
    /// Not a decodable identity string at all.
    Undecodable,
}

/// What the identity decoding makes of `s`; the result depends on the
/// characters alone.
pub uninterp spec fn nip19_decoding(s: Seq<char>) -> IdentityDecode;

/// Relies on `nostr::nips::nip19::Nip19::from_bech32` (re-exported by
/// `nostr_sdk`): decodes a bech32 identity string, telling public keys and
/// profile records apart from every other entity kind.
#[verifier::external_body]
pub(crate) fn decode_identity(s: &str) -> (r: IdentityDecode)
    ensures
        r == nip19_decoding(s@),
{
    match nostr_sdk::prelude::Nip19::from_bech32(s) {
        Ok(nostr_sdk::prelude::Nip19::Pubkey(pk)) => IdentityDecode::DirectKey(pk.to_bytes()),
        Ok(nostr_sdk::prelude::Nip19::Profile(pr)) => IdentityDecode::ProfileKey(
            pr.public_key.to_bytes(),
        ),
        Ok(_) => IdentityDecode::OtherEntity,
        Err(_) => IdentityDecode::Undecodable,
    }
}

/// One alias: a human-chosen name for an owner's public key.
pub struct AliasEntry {
    pub name: String,
    pub key: [u8; 32],
}

/// The map denoted by a sequence of alias entries; a later entry for the
/// same name wins, as a map insert would.
pub open spec fn alias_map(entries: Seq<AliasEntry>) -> Map<Seq<char>, Seq<u8>>
    decreases entries.len(),
{
    if entries.len() == 0 {
        Map::empty()
    } else {
        alias_map(entries.drop_last()).insert(entries.last().name@, entries.last().key@)
    }
}

/// The name-to-key table consulted when a subdomain is not itself a
/// decodable identity string.
pub struct AliasTable {
    entries: Vec<AliasEntry>,
}

/// In `entries`, position `i` holds the binding that decides name `k`:
/// it matches, and nothing after it does.
pub open spec fn deciding_alias(entries: Seq<AliasEntry>, k: Seq<char>, i: int) -> bool {
    &&& 0 <= i < entries.len()
    &&& entries[i].name@ == k
    &&& forall|j: int| i < j < entries.len() ==> entries[j].name@ != k
}

/// The binding that nothing later overrides is the one the map holds.
proof fn lemma_alias_map_decided(entries: Seq<AliasEntry>, k: Seq<char>, i: int)
    requires
        deciding_alias(entries, k, i),
    ensures
        alias_map(entries).contains_key(k),
        alias_map(entries)[k] == entries[i].key@,
    decreases entries.len(),
{
    if i == entries.len() - 1 {
    } else {
        lemma_alias_map_decided(entries.drop_last(), k, i);
    }
}

/// A name matched by no entry is not in the map.
proof fn lemma_alias_map_absent(entries: Seq<AliasEntry>, k: Seq<char>)
    requires
        forall|i: int| 0 <= i < entries.len() ==> entries[i].name@ != k,
    ensures
        !alias_map(entries).contains_key(k),
    decreases entries.len(),
{
    if entries.len() > 0 {
        lemma_alias_map_absent(entries.drop_last(), k);
    }
}

impl View for AliasTable {
    type V = Map<Seq<char>, Seq<u8>>;

    closed spec fn view(&self) -> Map<Seq<char>, Seq<u8>> {
        alias_map(self.entries@)
    }
}

impl AliasTable {
    /// An empty alias table.
    pub fn new() -> (r: AliasTable)
        ensures
            r@ == Map::<Seq<char>, Seq<u8>>::empty(),
    {
        AliasTable { entries: Vec::new() }
    }

    /// Binds `name` to `key`, replacing any earlier binding of the name.
    pub fn set_alias(&mut self, name: String, key: [u8; 32])
        ensures
            final(self)@ == old(self)@.insert(name@, key@),
    {
        self.entries.push(AliasEntry { name, key });
        proof {
            assert(self.entries@.drop_last() =~= old(self).entries@);
        }
    }

    /// The key bound to `name`, if any.
    pub fn lookup(&self, name: &str) -> (r: Option<[u8; 32]>)
        ensures
            r matches Some(k) ==> self@.contains_key(name@) && self@[name@] == k@,
            r is None ==> !self@.contains_key(name@),
    {
        let n = self.entries.len();
        let mut best: Option<usize> = None;
        let mut i: usize = 0;
        while i < n
            invariant
                n == self.entries.len(),
                i <= n,
                best matches Some(b) ==> b < i && self.entries@[b as int].name@ == name@,
                best matches Some(b) ==> forall|j: int|
                    b < j < i ==> self.entries@[j].name@ != name@,
                best is None ==> forall|j: int| 0 <= j < i ==> self.entries@[j].name@ != name@,
            decreases n - i,
        {
            if str_eq(self.entries[i].name.as_str(), name) {
                best = Some(i);
            }
            i = i + 1;
        }
        match best {
            Some(b) => {
                proof {
                    lemma_alias_map_decided(self.entries@, name@, b as int);
                }
                Some(self.entries[b].key)
            },
            None => {
                proof {
                    lemma_alias_map_absent(self.entries@, name@);
                }
                None
            },
        }
    }
}

/// The outcome of identity resolution on a request's host.
pub enum HostIdentity {
    /// The host has no subdomain: fall through to the landing page.
    NoSubdomain,
    /// The site owner the request addresses.
    Owner([u8; 32]),
}

/// Resolves a Host header to a site owner: strip the port, take the first
/// of at least three labels, decode it as an identity string, and fall
/// back to the alias table when it does not decode.
pub fn resolve_identity(host: &str, aliases: &AliasTable) -> (r: Result<
    HostIdentity,
    GatewayError,
>)
    ensures
        subdomain_of(host@) is None <==> r == Ok::<HostIdentity, GatewayError>(
            HostIdentity::NoSubdomain,
        ),
        r matches Ok(HostIdentity::Owner(k)) ==> {
            let sub = subdomain_of(host@).unwrap();
            match nip19_decoding(sub) {
                IdentityDecode::DirectKey(d) => k == d,
                IdentityDecode::ProfileKey(d) => k == d,
                IdentityDecode::OtherEntity => false,
                IdentityDecode::Undecodable => aliases@.contains_key(sub) && aliases@[sub]
                    == k@,
            }
        },
        r == Err::<HostIdentity, GatewayError>(GatewayError::InvalidIdentity) <==> {
            &&& subdomain_of(host@) is Some
            &&& nip19_decoding(subdomain_of(host@).unwrap()) is OtherEntity
        },
        r == Err::<HostIdentity, GatewayError>(GatewayError::UnknownAlias) <==> {
            &&& subdomain_of(host@) is Some
            &&& nip19_decoding(subdomain_of(host@).unwrap()) is Undecodable
            &&& !aliases@.contains_key(subdomain_of(host@).unwrap())
        },
        r is Err ==> (r == Err::<HostIdentity, GatewayError>(GatewayError::InvalidIdentity)
            || r == Err::<HostIdentity, GatewayError>(GatewayError::UnknownAlias)),
{
    let sub = match crate::host::extract_subdomain(host) {
        Some(s) => s,
        None => {
            return Ok(HostIdentity::NoSubdomain);
        },
    };
    match decode_identity(sub.as_str()) {
        IdentityDecode::DirectKey(k) => Ok(HostIdentity::Owner(k)),
        IdentityDecode::ProfileKey(k) => Ok(HostIdentity::Owner(k)),
        IdentityDecode::OtherEntity => Err(GatewayError::InvalidIdentity),
        IdentityDecode::Undecodable => match aliases.lookup(sub.as_str()) {
            Some(k) => Ok(HostIdentity::Owner(k)),
            None => Err(GatewayError::UnknownAlias),
        },
    }
}

} // verus!
