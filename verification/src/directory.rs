//! The process-wide directory of loaded sites, keyed by owner identity.
//!
//! A site enters the directory only after a successful load: an owner
//! with no root route is installed as "no site" and leaves the directory
//! untouched, so nothing is cached for it. A reloaded owner replaces
//! its entry; two concurrent loaders of the same owner thus converge on
//! the same final state.

use vstd::prelude::*;
use crate::events::{LogEvent, route_parse};
use crate::site::{SiteInfo, SiteModel};

verus! {

/// Byte-for-byte equality of two owner keys.
fn key_eq(a: &[u8; 32], b: &[u8; 32]) -> (r: bool)
    ensures
        r == (a@ == b@),
{
    let mut i: usize = 0;
    while i < 32
        invariant
            i <= 32,
            forall|j: int| 0 <= j < i ==> a@[j] == b@[j],
        decreases 32 - i,
    {
        if a[i] != b[i] {
            assert(a@[i as int] != b@[i as int]);
            return false;
        }
        i = i + 1;
    }
    proof {
        assert(a@ =~= b@);
    }
    true
}

/// The map denoted by a sequence of loaded sites; a later load of the
/// same owner wins.
pub open spec fn directory_map(sites: Seq<SiteInfo>) -> Map<Seq<u8>, SiteModel>
    decreases sites.len(),
{
    if sites.len() == 0 {
        Map::empty()
    } else {
        directory_map(sites.drop_last()).insert(sites.last()@.pubkey, sites.last()@)
    }
}

/// In `sites`, position `i` holds the load that decides owner `k`: it
/// matches, and nothing after it does.
pub open spec fn deciding_site(sites: Seq<SiteInfo>, k: Seq<u8>, i: int) -> bool {
    &&& 0 <= i < sites.len()
    &&& sites[i]@.pubkey == k
    &&& forall|j: int| i < j < sites.len() ==> sites[j]@.pubkey != k
}

/// The load that nothing later overrides is the one the map holds.
proof fn lemma_directory_map_decided(sites: Seq<SiteInfo>, k: Seq<u8>, i: int)
    requires
        deciding_site(sites, k, i),
    ensures
        directory_map(sites).contains_key(k),
        directory_map(sites)[k] == sites[i]@,
    decreases sites.len(),
{
    if i == sites.len() - 1 {
    } else {
        lemma_directory_map_decided(sites.drop_last(), k, i);
    }
}

/// An owner matched by no load is not in the map.
proof fn lemma_directory_map_absent(sites: Seq<SiteInfo>, k: Seq<u8>)
    requires
        forall|i: int| 0 <= i < sites.len() ==> sites[i]@.pubkey != k,
    ensures
        !directory_map(sites).contains_key(k),
    decreases sites.len(),
{
    if sites.len() > 0 {
        lemma_directory_map_absent(sites.drop_last(), k);
    }
}

/// What installing a load outcome does to the directory's map: a loaded
/// site is inserted under its owner; "no site" changes nothing.
pub open spec fn installed(d: Map<Seq<u8>, SiteModel>, loaded: Option<SiteModel>) -> Map<
    Seq<u8>,
    SiteModel,
> {
    match loaded {
        Some(m) => d.insert(m.pubkey, m),
        None => d,
    }
}

/// The directory of loaded sites, keyed by owner public key.
pub struct SiteDirectory {
    sites: Vec<SiteInfo>,
}

impl View for SiteDirectory {
    type V = Map<Seq<u8>, SiteModel>;

    closed spec fn view(&self) -> Map<Seq<u8>, SiteModel> {
        directory_map(self.sites@)
    }
}

impl SiteDirectory {
    /// An empty directory.
    pub fn new() -> (r: SiteDirectory)
        ensures
            r@ == Map::<Seq<u8>, SiteModel>::empty(),
    {
        SiteDirectory { sites: Vec::new() }
    }

    /// A copy of the cached site for `pubkey`, if one is cached.
    pub fn get_cloned(&self, pubkey: &[u8; 32]) -> (r: Option<SiteInfo>)
        ensures
            r matches Some(s) ==> self@.contains_key(pubkey@) && s@ == self@[pubkey@],
            r is None ==> !self@.contains_key(pubkey@),
    {
        let n = self.sites.len();
        let mut best: Option<usize> = None;
        let mut i: usize = 0;
        while i < n
            invariant
                n == self.sites.len(),
                i <= n,
                best matches Some(b) ==> b < i && self.sites@[b as int]@.pubkey == pubkey@,
                best matches Some(b) ==> forall|j: int|
                    b < j < i ==> self.sites@[j]@.pubkey != pubkey@,
                best is None ==> forall|j: int| 0 <= j < i ==> self.sites@[j]@.pubkey != pubkey@,
            decreases n - i,
        {
            if key_eq(self.sites[i].owner_key(), pubkey) {
                best = Some(i);
            }
            i = i + 1;
        }
        match best {
            Some(b) => {
                proof {
                    lemma_directory_map_decided(self.sites@, pubkey@, b as int);
                }
                Some(self.sites[b].clone())
            },
            None => {
                proof {
                    lemma_directory_map_absent(self.sites@, pubkey@);
                }
                None
            },
        }
    }

    /// Installs a load outcome: a loaded site is cached under its owner,
    /// replacing any earlier entry; "no site" caches nothing.
    pub fn install(&mut self, loaded: Option<SiteInfo>)
        ensures
            final(self)@ == installed(
                old(self)@,
                match loaded {
                    Some(s) => Some(s@),
                    None => None,
                },
            ),
            loaded is None ==> final(self)@ == old(self)@,
            loaded matches Some(s) ==> final(self)@ == old(self)@.insert(s@.pubkey, s@),
    {
        if let Some(site) = loaded {
            let ghost prev = self.sites@;
            self.sites.push(site);
            proof {
                assert(self.sites@.drop_last() =~= prev);
            }
        }
    }
}

/// An owner with no root-route event gets no site and is never cached:
/// the routing query for the root path comes back empty, `SiteInfo::load`
/// therefore reports "no site" by its contract, and installing that
/// outcome leaves every directory exactly as it was.
pub proof fn lemma_no_root_route_caches_nothing(
    d: Map<Seq<u8>, SiteModel>,
    root_events: Seq<LogEvent>,
)
    requires
        root_events.len() == 0,
    ensures
        route_parse(root_events) is NoEvent,
        installed(d, None) == d,
{
}

} // verus!
