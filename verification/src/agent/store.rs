//! The agent keeps its own small record of the sites it manages, so operations
//! that arrive with only a `site_id` can find the domain, UID and container.
//! The panel remains the source of truth; this is a local index.

use std::collections::BTreeMap;
use vstd::prelude::*;
use vstd::std_specs::cmp::OrdSpec;
use vstd::std_specs::iter::IteratorSpec;
use crate::common::error::{Error, ErrorView};
use crate::common::models;
use crate::common::models::{CacheSettings, DatabaseMode, PhpVersion, ResourceLimits, SiteStatus};
use crate::digits;
use crate::text;

verus! {

#[derive(Debug)]
pub struct SiteRecord {
    pub site_id: i64,
    pub domain: String,
    pub uid: u32,
    pub php_version: PhpVersion,
    pub database_mode: DatabaseMode,
    pub limits: ResourceLimits,
    pub cache: CacheSettings,
    pub status: SiteStatus,
    pub container_id: Option<String>,
    pub db_name: String,
    pub domains: Vec<String>,
}

/// [`SiteRecord`] with its texts as sequences of characters.
pub struct RecordView {
    pub site_id: i64,
    pub domain: Seq<char>,
    pub uid: u32,
    pub php_version: PhpVersion,
    pub database_mode: DatabaseMode,
    pub limits: ResourceLimits,
    pub cache: CacheSettings,
    pub status: SiteStatus,
    pub container_id: Option<Seq<char>>,
    pub db_name: Seq<char>,
    pub domains: Seq<Seq<char>>,
}

impl View for SiteRecord {
    type V = RecordView;

    open spec fn view(&self) -> RecordView {
        RecordView {
            site_id: self.site_id,
            domain: self.domain@,
            uid: self.uid,
            php_version: self.php_version,
            database_mode: self.database_mode,
            limits: self.limits,
            cache: self.cache,
            status: self.status,
            container_id: text::text_opt(self.container_id),
            db_name: self.db_name@,
            domains: text::texts(self.domains@),
        }
    }
}

impl Clone for SiteRecord {
    fn clone(&self) -> (r: Self)
        ensures
            r@ == self@,
    {
        SiteRecord {
            site_id: self.site_id,
            domain: self.domain.clone(),
            uid: self.uid,
            php_version: self.php_version,
            database_mode: self.database_mode,
            limits: self.limits,
            cache: self.cache,
            status: self.status,
            container_id: text::copy_opt(&self.container_id),
            db_name: self.db_name.clone(),
            domains: text::copy_all(&self.domains),
        }
    }
}

impl RecordView {
    /// The container that serves the site.
    pub open spec fn container(self) -> Seq<char> {
        models::container_name_of(self.domain)
    }
}

impl SiteRecord {
    pub fn container_name(&self) -> (s: String)
        ensures
            s@ == self@.container(),
    {
        models::container_name(self.domain.as_str())
    }
}

/// The records of the managed sites, by the ids of the sites.
#[derive(Debug)]
pub struct Store {
    sites: BTreeMap<i64, SiteRecord>,
}

/// The records, by the ids of their sites.
pub open spec fn by_id(v: Seq<SiteRecord>) -> Map<i64, RecordView> {
    Map::new(
        |id: i64| exists|i: int| 0 <= i < v.len() && (#[trigger] v[i]).site_id == id,
        |id: i64| v[choose|i: int| 0 <= i < v.len() && (#[trigger] v[i]).site_id == id]@,
    )
}

/// The ids rise from record to record.
pub open spec fn rising(v: Seq<SiteRecord>) -> bool {
    forall|i: int, j: int| 0 <= i < j < v.len() ==> (#[trigger] v[i]).site_id < (#[trigger] v[j]).site_id
}

/// The error for a site that the agent does not know.
pub open spec fn unmanaged(site_id: i64) -> ErrorView {
    ErrorView::NotFound("site "@ + digits::dec_int(site_id as int) + " is not managed by this agent"@)
}

impl View for Store {
    type V = Map<i64, RecordView>;

    closed spec fn view(&self) -> Map<i64, RecordView> {
        self.sites@.map_values(|r: SiteRecord| r@)
    }
}

impl Store {
    #[verifier::type_invariant]
    spec fn inv(self) -> bool {
        forall|id: i64| #[trigger] self.sites@.contains_key(id) ==> self.sites@[id].site_id == id
    }

    /// A record of some site has this UID.
    pub open spec fn uses(self, uid: u32) -> bool {
        exists|id: i64| #[trigger] self@.contains_key(id) && self@[id].uid == uid
    }

    /// `uid` is the lowest unused one at or above `base`.
    pub open spec fn is_next(self, base: u32, uid: u32) -> bool {
        &&& base <= uid
        &&& !self.uses(uid)
        &&& forall|u: u32| base <= u < uid ==> #[trigger] self.uses(u)
    }

    /// Some UID at or above `base` is unused.
    pub open spec fn has_free(self, base: u32) -> bool {
        exists|uid: u32| base <= uid && !#[trigger] self.uses(uid)
    }

    /// The lowest unused UID at or above `base`.
    pub open spec fn spec_next_uid(self, base: u32) -> u32 {
        choose|uid: u32| self.is_next(base, uid)
    }

    /// An index of no sites.
    pub fn new() -> (s: Store)
        ensures
            s@ == Map::<i64, RecordView>::empty(),
    {
        let s = Store { sites: BTreeMap::new() };
        assert(s@ =~= Map::<i64, RecordView>::empty());
        s
    }

    pub fn get(&self, site_id: i64) -> (r: Result<SiteRecord, Error>)
        ensures
            match r {
                Ok(record) => self@.contains_key(site_id) && record@ == self@[site_id],
                Err(e) => !self@.contains_key(site_id) && e@ == unmanaged(site_id),
            },
    {
        match self.sites.get(&site_id) {
            Some(record) => Ok(record.clone()),
            None => {
                let id = digits::dec_i64(site_id);
                Err(Error::NotFound(text::cat3("site ", id.as_str(), " is not managed by this agent")))
            },
        }
    }

    pub fn put(&mut self, record: SiteRecord)
        ensures
            final(self)@ == old(self)@.insert(record.site_id, record@),
    {
        proof {
            use_type_invariant(&*self);
        }
        let mut sites: BTreeMap<i64, SiteRecord> = BTreeMap::new();
        std::mem::swap(&mut sites, &mut self.sites);
        sites.insert(record.site_id, record);
        std::mem::swap(&mut sites, &mut self.sites);
        assert(self@ =~= old(self)@.insert(record.site_id, record@));
    }

    pub fn remove(&mut self, site_id: i64)
        ensures
            final(self)@ == old(self)@.remove(site_id),
    {
        proof {
            use_type_invariant(&*self);
        }
        let mut sites: BTreeMap<i64, SiteRecord> = BTreeMap::new();
        std::mem::swap(&mut sites, &mut self.sites);
        sites.remove(&site_id);
        std::mem::swap(&mut sites, &mut self.sites);
        assert(self@ =~= old(self)@.remove(site_id));
    }

    /// How many sites are managed.
    pub fn len(&self) -> (n: usize)
        ensures
            n == self@.len(),
    {
        assert(self@.dom() =~= self.sites@.dom());
        self.sites.len()
    }

    /// The records in the order of the ids.
    pub fn all(&self) -> (v: Vec<SiteRecord>)
        ensures
            rising(v@),
            by_id(v@) == self@,
    {
        proof {
            use_type_invariant(self);
        }
        let walk = self.sites.iter();
        let ghost entries = walk.remaining();
        let ghost keys = entries.map_values(|kv: (&i64, &SiteRecord)| *kv.0);
        let mut v: Vec<SiteRecord> = Vec::new();
        for entry in it: walk
            invariant
                it.seq() == entries,
                v@.len() == it.index(),
                forall|j: int| 0 <= j < v@.len() ==> (#[trigger] v@[j])@ == entries[j].1@,
        {
            v.push(entry.1.clone());
        }
        proof {
            assert forall|j: int| 0 <= j < v@.len() implies (#[trigger] v@[j])@.site_id == keys[j]
                && self@.contains_key(keys[j]) && self@[keys[j]] == v@[j]@ by {
                assert(self.sites@.contains_key(*entries[j].0));
            }
            assert(rising(v@)) by {
                assert forall|i: int, j: int| 0 <= i < j < v@.len() implies (#[trigger] v@[i]).site_id
                    < (#[trigger] v@[j]).site_id by {
                    assert(keys[i].cmp_spec(&keys[j]) is Less);
                }
            }
            assert forall|id: i64| #[trigger] self@.contains_key(id) implies exists|j: int|
                0 <= j < v@.len() && (#[trigger] v@[j]).site_id == id by {
                assert(self.sites@.contains_key(id));
                let j = choose|j: int| 0 <= j < entries.len() && entries[j] == (&id, &self.sites@[id]);
                assert(v@[j]@.site_id == id);
            }
            lemma_listed(v@, self@);
        }
        v
    }

    /// Looks for the lowest unused UID at or above `base`.
    pub fn find_uid(&self, base: u32) -> (r: Option<u32>)
        ensures
            match r {
                Some(uid) => self.is_next(base, uid) && uid == self.spec_next_uid(base),
                None => !self.has_free(base),
            },
    {
        let mut uid: u32 = base;
        while self.holds_uid(uid)
            invariant
                base <= uid,
                forall|u: u32| base <= u < uid ==> #[trigger] self.uses(u),
            decreases u32::MAX - uid,
        {
            if uid == u32::MAX {
                return None;
            }
            uid += 1;
        }
        proof {
            let other = self.spec_next_uid(base);
            assert(self.is_next(base, uid));
            assert(self.is_next(base, other));
            if other < uid {
                assert(self.uses(other));
            }
            if uid < other {
                assert(self.uses(uid));
            }
        }
        Some(uid)
    }

    /// Lowest unused UID at or above `base`.
    pub fn next_uid(&self, base: u32) -> (uid: u32)
        requires
            self.has_free(base),
        ensures
            self.is_next(base, uid),
            uid == self.spec_next_uid(base),
    {
        match self.find_uid(base) {
            Some(uid) => uid,
            None => base,
        }
    }

    /// Whether a record has this UID.
    fn holds_uid(&self, uid: u32) -> (r: bool)
        ensures
            r == self.uses(uid),
    {
        for entry in it: self.sites.iter()
            invariant
                forall|j: int| 0 <= j < it.index() ==> (#[trigger] it.seq()[j]).1.uid != uid,
        {
            if entry.1.uid == uid {
                assert(self@.contains_key(*entry.0));
                return true;
            }
        }
        false
    }
}

/// The record of a site is found under its id.
proof fn lemma_by_id(v: Seq<SiteRecord>, i: int)
    requires
        rising(v),
        0 <= i < v.len(),
    ensures
        by_id(v).contains_key(v[i].site_id),
        by_id(v)[v[i].site_id] == v[i]@,
{
    let id = v[i].site_id;
    let k = choose|k: int| 0 <= k < v.len() && (#[trigger] v[k]).site_id == id;
    if k < i {
        assert(v[k].site_id < v[i].site_id);
    }
    if i < k {
        assert(v[i].site_id < v[k].site_id);
    }
}

/// Records that hold what a map has under each of its keys are found as in the map.
proof fn lemma_listed(v: Seq<SiteRecord>, sites: Map<i64, RecordView>)
    requires
        rising(v),
        forall|j: int|
            0 <= j < v.len() ==> sites.contains_key((#[trigger] v[j]).site_id)
                && sites[v[j].site_id] == v[j]@,
        forall|id: i64| #[trigger]
            sites.contains_key(id) ==> exists|j: int| 0 <= j < v.len() && (#[trigger] v[j]).site_id == id,
    ensures
        by_id(v) == sites,
{
    assert forall|id: i64| by_id(v).contains_key(id) implies by_id(v)[id] == sites[id] by {
        let i = choose|i: int| 0 <= i < v.len() && (#[trigger] v[i]).site_id == id;
        lemma_by_id(v, i);
    }
    assert(by_id(v) =~= sites);
}

/// No two sites have one UID.
pub open spec fn uids_apart(sites: Map<i64, RecordView>) -> bool {
    forall|a: i64, b: i64|
        #![trigger sites[a], sites[b]]
        sites.contains_key(a) && sites.contains_key(b) && a != b ==> sites[a].uid != sites[b].uid
}

/// A site that is put with the next free UID leaves every site with a UID of its own.
pub proof fn law_new_sites_get_their_own_uid(store: Store, base: u32, record: RecordView)
    requires
        uids_apart(store@),
        store.is_next(base, record.uid),
    ensures
        uids_apart(store@.insert(record.site_id, record)),
{
    let after = store@.insert(record.site_id, record);
    assert forall|a: i64, b: i64|
        #![trigger after[a], after[b]]
        after.contains_key(a) && after.contains_key(b) && a != b implies after[a].uid
        != after[b].uid by {
        if a != record.site_id {
            assert(store@.contains_key(a));
            assert(after[a] == store@[a]);
        }
        if b != record.site_id {
            assert(store@.contains_key(b));
            assert(after[b] == store@[b]);
        }
    }
}

/// A record that is put again with its UID, or is removed, leaves the UIDs apart.
pub proof fn law_known_sites_keep_their_uid(store: Store, id: i64, record: RecordView)
    requires
        uids_apart(store@),
        store@.contains_key(id),
        record.site_id == id,
        record.uid == store@[id].uid,
    ensures
        uids_apart(store@.insert(id, record)),
        uids_apart(store@.remove(id)),
{
    let after = store@.insert(id, record);
    assert forall|a: i64, b: i64|
        #![trigger after[a], after[b]]
        after.contains_key(a) && after.contains_key(b) && a != b implies after[a].uid
        != after[b].uid by {
        assert(store@[a].uid != store@[b].uid);
    }
    let left = store@.remove(id);
    assert forall|a: i64, b: i64|
        #![trigger left[a], left[b]]
        left.contains_key(a) && left.contains_key(b) && a != b implies left[a].uid
        != left[b].uid by {
        assert(store@[a].uid != store@[b].uid);
    }
}

/// There is a lowest unused UID where there is an unused one.
proof fn lemma_lowest(store: Store, base: u32, u: u32, unused: u32)
    requires
        base <= u <= unused,
        !store.uses(unused),
        forall|v: u32| base <= v < u ==> #[trigger] store.uses(v),
    ensures
        exists|uid: u32| store.is_next(base, uid),
    decreases unused - u,
{
    if store.uses(u) {
        lemma_lowest(store, base, (u + 1) as u32, unused);
    } else {
        assert(store.is_next(base, u));
    }
}

/// The UID that the next site gets is an unused one, at or above the first, and none
/// between is unused.
pub proof fn law_next_uid_is_the_lowest_unused(store: Store, base: u32, other: u32)
    requires
        store.has_free(base),
    ensures
        base <= store.spec_next_uid(base),
        !store.uses(store.spec_next_uid(base)),
        base <= other < store.spec_next_uid(base) ==> store.uses(other),
{
    let unused = choose|uid: u32| base <= uid && !#[trigger] store.uses(uid);
    lemma_lowest(store, base, base, unused);
    assert(store.is_next(base, store.spec_next_uid(base)));
}

} // verus!
