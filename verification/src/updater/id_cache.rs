//! Provider identifiers of zones and records, by name.
//!
//! An identifier that is present belongs to a zone or record the provider
//! reported under that name. One that is absent is unknown, not missing at
//! the provider: the caller then asks the provider and feeds the answer in.

use vstd::prelude::*;
use vstd::hash_map::StringHashMap;
use crate::addr::{Family, IpAddress};
use crate::cloudflare::record::{DnsRecord, DnsRecordView};
use crate::cloudflare::zone::{Zone, ZoneView};

verus! {

/// The identifiers of the records that share one name, one per family.
#[derive(Debug, PartialEq, Eq)]
pub struct RecordIdCache {
    pub v4: Option<String>,
    pub v6: Option<String>,
}

/// The identifiers of the records that share one name, as character
/// sequences.
pub struct RecordIds {
    pub v4: Option<Seq<char>>,
    pub v6: Option<Seq<char>>,
}

impl RecordIds {
    /// No identifier known for either family.
    pub open spec fn unknown() -> RecordIds {
        RecordIds { v4: None, v6: None }
    }

    /// The identifier for `family`.
    pub open spec fn get(self, family: Family) -> Option<Seq<char>> {
        match family {
            Family::V4 => self.v4,
            Family::V6 => self.v6,
        }
    }

    /// These identifiers after `record` was seen at the provider: its
    /// identifier replaces the one of its family. A record that is no address
    /// record changes nothing.
    pub open spec fn observed(self, record: DnsRecordView) -> RecordIds {
        match record.content.family_of() {
            Some(Family::V4) => RecordIds { v4: Some(record.id), v6: self.v6 },
            Some(Family::V6) => RecordIds { v4: self.v4, v6: Some(record.id) },
            None => self,
        }
    }
}

impl View for RecordIdCache {
    type V = RecordIds;

    open spec fn view(&self) -> RecordIds {
        RecordIds { v4: self.v4.deep_view(), v6: self.v6.deep_view() }
    }
}

impl DeepView for RecordIdCache {
    type V = RecordIds;

    open spec fn deep_view(&self) -> RecordIds {
        self@
    }
}

impl Default for RecordIdCache {
    fn default() -> (ids: RecordIdCache)
        ensures
            ids@ == RecordIds::unknown(),
    {
        RecordIdCache { v4: None, v6: None }
    }
}

impl Clone for RecordIdCache {
    fn clone(&self) -> (res: RecordIdCache)
        ensures
            res@ == self@,
    {
        let v4 = match &self.v4 {
            Some(id) => Some(id.clone()),
            None => None,
        };
        let v6 = match &self.v6 {
            Some(id) => Some(id.clone()),
            None => None,
        };
        RecordIdCache { v4, v6 }
    }
}

impl RecordIdCache {
    /// The identifier of the record that holds addresses of `addr`'s family.
    pub fn get_for(&self, addr: &IpAddress) -> (id: Option<String>)
        ensures
            id.deep_view() == self@.get(addr.family_of()),
    {
        match addr {
            IpAddress::V4(_) => match &self.v4 {
                Some(id) => Some(id.clone()),
                None => None,
            },
            IpAddress::V6(_) => match &self.v6 {
                Some(id) => Some(id.clone()),
                None => None,
            },
        }
    }

    /// Takes in a record seen at the provider.
    pub fn update(&mut self, record: DnsRecord)
        ensures
            final(self)@ == old(self)@.observed(record@),
    {
        match record.content.family() {
            Some(Family::V4) => self.v4 = Some(record.id),
            Some(Family::V6) => self.v6 = Some(record.id),
            None => {},
        }
    }
}

/// The cache as two maps over character sequences.
pub struct IdCacheView {
    /// Zone name to zone identifier.
    pub zones: Map<Seq<char>, Seq<char>>,
    /// Record name to record identifiers.
    pub records: Map<Seq<char>, RecordIds>,
}

impl IdCacheView {
    /// The cache that knows nothing.
    pub open spec fn empty() -> IdCacheView {
        IdCacheView { zones: Map::empty(), records: Map::empty() }
    }

    /// The identifier of the zone `zone`.
    pub open spec fn zone(self, zone: Seq<char>) -> Option<Seq<char>> {
        if self.zones.contains_key(zone) {
            Some(self.zones[zone])
        } else {
            None
        }
    }

    /// The identifiers held for the record name `name`.
    pub open spec fn ids(self, name: Seq<char>) -> RecordIds {
        if self.records.contains_key(name) {
            self.records[name]
        } else {
            RecordIds::unknown()
        }
    }

    /// The identifier of the record `name` for `family`.
    pub open spec fn record(self, name: Seq<char>, family: Family) -> Option<Seq<char>> {
        self.ids(name).get(family)
    }

    /// The cache after the zone `zone` was seen with the identifier `id`.
    pub open spec fn with_zone(self, zone: Seq<char>, id: Seq<char>) -> IdCacheView {
        IdCacheView { zones: self.zones.insert(zone, id), records: self.records }
    }

    /// The cache after the identifiers of the name `name` were set to `ids`.
    pub open spec fn with_ids(self, name: Seq<char>, ids: RecordIds) -> IdCacheView {
        IdCacheView { zones: self.zones, records: self.records.insert(name, ids) }
    }

    /// The cache after `record` was seen under the name `name`. The name gets
    /// an entry even if the record is no address record.
    pub open spec fn with_record(self, name: Seq<char>, record: DnsRecordView) -> IdCacheView {
        self.with_ids(name, self.ids(name).observed(record))
    }

    /// The cache after every zone of a listing was seen, first to last.
    pub open spec fn with_zones(self, listing: Seq<ZoneView>) -> IdCacheView
        decreases listing.len(),
    {
        if listing.len() == 0 {
            self
        } else {
            self.with_zones(listing.drop_last()).with_zone(listing.last().name, listing.last().id)
        }
    }

    /// The cache after every record of a listing was seen under the name
    /// `name`, first to last.
    pub open spec fn with_records(self, name: Seq<char>, listing: Seq<DnsRecordView>) -> IdCacheView
        decreases listing.len(),
    {
        if listing.len() == 0 {
            self
        } else {
            self.with_records(name, listing.drop_last()).with_record(name, listing.last())
        }
    }
}

/// Everything a cache holds, as a list of entries: what is written to the
/// cache file and read back from it.
#[derive(Debug, PartialEq, Eq)]
pub struct CacheSnapshot {
    /// Zone name and zone identifier.
    pub zones: Vec<(String, String)>,
    /// Record name and record identifiers.
    pub records: Vec<(String, RecordIdCache)>,
}

/// A snapshot as sequences of entries.
pub struct SnapshotView {
    pub zones: Seq<(Seq<char>, Seq<char>)>,
    pub records: Seq<(Seq<char>, RecordIds)>,
}

impl View for CacheSnapshot {
    type V = SnapshotView;

    open spec fn view(&self) -> SnapshotView {
        SnapshotView {
            zones: Seq::new(self.zones@.len(), |i: int| (self.zones@[i].0@, self.zones@[i].1@)),
            records: Seq::new(
                self.records@.len(),
                |i: int| (self.records@[i].0@, self.records@[i].1@),
            ),
        }
    }
}

/// The map that a list of entries builds up, first to last: a later entry
/// replaces an earlier one of the same name.
pub open spec fn collected<V>(entries: Seq<(Seq<char>, V)>) -> Map<Seq<char>, V>
    decreases entries.len(),
{
    if entries.len() == 0 {
        Map::empty()
    } else {
        collected(entries.drop_last()).insert(entries.last().0, entries.last().1)
    }
}

/// `entries` holds the pairs of `map`, each exactly once.
pub open spec fn exact<V>(entries: Seq<(Seq<char>, V)>, map: Map<Seq<char>, V>) -> bool {
    &&& forall|i: int|
        0 <= i < entries.len() ==> map.contains_key(#[trigger] entries[i].0) && map[entries[i].0]
            == entries[i].1
    &&& forall|k: Seq<char>| #[trigger]
        map.contains_key(k) ==> exists|i: int| 0 <= i < entries.len() && #[trigger] entries[i].0 == k
    &&& forall|i: int, j: int|
        0 <= i < j < entries.len() ==> #[trigger] entries[i].0 != #[trigger] entries[j].0
}

impl SnapshotView {
    /// The cache that the snapshot restores to.
    pub open spec fn cache(self) -> IdCacheView {
        IdCacheView { zones: collected(self.zones), records: collected(self.records) }
    }

    /// The snapshot holds what `cache` holds, each entry exactly once.
    pub open spec fn depicts(self, cache: IdCacheView) -> bool {
        exact(self.zones, cache.zones) && exact(self.records, cache.records)
    }
}

/// A list that holds the pairs of a map, each exactly once, builds up that
/// map.
pub proof fn lemma_exact_collects<V>(entries: Seq<(Seq<char>, V)>, map: Map<Seq<char>, V>)
    requires
        exact(entries, map),
    ensures
        collected(entries) == map,
    decreases entries.len(),
{
    if entries.len() == 0 {
        assert(map =~= Map::empty());
    } else {
        let last = entries.last();
        let front = entries.drop_last();
        let rest = map.remove(last.0);
        assert forall|i: int| 0 <= i < front.len() implies rest.contains_key(#[trigger] front[i].0)
            && rest[front[i].0] == front[i].1 by {
            assert(front[i] == entries[i]);
            assert(entries[i].0 != entries[entries.len() - 1].0);
        }
        assert forall|k: Seq<char>| #[trigger] rest.contains_key(k) implies exists|i: int|
            0 <= i < front.len() && #[trigger] front[i].0 == k by {
            assert(map.contains_key(k));
            let i = choose|i: int| 0 <= i < entries.len() && #[trigger] entries[i].0 == k;
            assert(front[i] == entries[i]);
        }
        assert forall|i: int, j: int| 0 <= i < j < front.len() implies #[trigger] front[i].0
            != #[trigger] front[j].0 by {
            assert(front[i] == entries[i]);
            assert(front[j] == entries[j]);
        }
        lemma_exact_collects(front, rest);
        assert(map.contains_key(entries[entries.len() - 1].0));
        assert(collected(entries) =~= map);
    }
}

/// Zone and record identifiers by name.
pub struct IdCache {
    /// Zone name to zone identifier.
    zones: StringHashMap<String>,
    /// The keys of `zones`, each once, in the order they were first seen.
    zone_names: Vec<String>,
    /// Record name to record identifiers.
    records: StringHashMap<RecordIdCache>,
    /// The keys of `records`, each once, in the order they were first seen.
    record_names: Vec<String>,
}

/// `names` lists the members of `keys`, each exactly once.
pub closed spec fn lists(names: Seq<String>, keys: Set<Seq<char>>) -> bool {
    &&& forall|i: int| 0 <= i < names.len() ==> keys.contains(#[trigger] names[i]@)
    &&& forall|k: Seq<char>| keys.contains(k) ==> exists|i: int| 0 <= i < names.len() && #[trigger] names[i]@ == k
    &&& forall|i: int, j: int| 0 <= i < j < names.len() ==> names[i]@ != names[j]@
}

/// A list stays exact when a name that is no key yet is added to both.
proof fn lemma_lists_push(names: Seq<String>, keys: Set<Seq<char>>, name: String)
    requires
        lists(names, keys),
        !keys.contains(name@),
    ensures
        lists(names.push(name), keys.insert(name@)),
{
    let longer = names.push(name);
    let more = keys.insert(name@);
    assert forall|i: int| 0 <= i < longer.len() implies more.contains(#[trigger] longer[i]@) by {
        if i < names.len() {
            assert(longer[i] == names[i]);
        }
    }
    assert forall|k: Seq<char>| more.contains(k) implies exists|i: int|
        0 <= i < longer.len() && #[trigger] longer[i]@ == k by {
        if k == name@ {
            assert(longer[names.len() as int]@ == k);
        } else {
            let i = choose|i: int| 0 <= i < names.len() && #[trigger] names[i]@ == k;
            assert(longer[i]@ == k);
        }
    }
    assert forall|i: int, j: int| 0 <= i < j < longer.len() implies longer[i]@ != longer[j]@ by {
        assert(longer[i] == names[i]);
        assert(keys.contains(names[i]@));
        if j < names.len() {
            assert(longer[j] == names[j]);
        }
    }
}

impl View for IdCache {
    type V = IdCacheView;

    closed spec fn view(&self) -> IdCacheView {
        IdCacheView {
            zones: self.zones@.map_values(|id: String| id@),
            records: self.records@.map_values(|ids: RecordIdCache| ids@),
        }
    }
}

impl IdCache {
    /// The lists of names agree with the maps. Every cache that this module
    /// hands out is well formed, and every operation keeps it so.
    pub closed spec fn wf(&self) -> bool {
        &&& lists(self.zone_names@, self.zones@.dom())
        &&& lists(self.record_names@, self.records@.dom())
    }

    /// A cache that knows nothing.
    pub fn new() -> (cache: IdCache)
        ensures
            cache.wf(),
            cache@ == IdCacheView::empty(),
    {
        let cache = IdCache {
            zones: StringHashMap::new(),
            zone_names: Vec::new(),
            records: StringHashMap::new(),
            record_names: Vec::new(),
        };
        assert(cache@.zones =~= Map::empty());
        assert(cache@.records =~= Map::empty());
        cache
    }

    /// The identifier of the zone `zone`, if it is known.
    pub fn get_zone(&self, zone: &str) -> (id: Option<String>)
        ensures
            id.deep_view() == self@.zone(zone@),
    {
        match self.zones.get(zone) {
            Some(id) => Some(id.clone()),
            None => None,
        }
    }

    /// The identifier of the record `name` for the family of `addr`, if it is
    /// known.
    pub fn get_record(&self, name: &str, addr: &IpAddress) -> (id: Option<String>)
        ensures
            id.deep_view() == self@.record(name@, addr.family_of()),
    {
        match self.records.get(name) {
            Some(ids) => ids.get_for(addr),
            None => None,
        }
    }

    /// Remembers `id` as the identifier of the zone `zone`, in place of any
    /// earlier one.
    pub fn save_zone(&mut self, zone: String, id: String)
        requires
            old(self).wf(),
        ensures
            final(self).wf(),
            final(self)@ == old(self)@.with_zone(zone@, id@),
    {
        if !self.zones.contains_key(zone.as_str()) {
            proof {
                lemma_lists_push(self.zone_names@, self.zones@.dom(), zone);
            }
            self.zone_names.push(zone.clone());
        } else {
            assert(self.zones@.dom().insert(zone@) =~= self.zones@.dom());
        }
        self.zones.insert(zone, id);
        proof {
            assert(final(self)@.zones =~= old(self)@.zones.insert(zone@, id@));
        }
    }

    /// Sets the identifiers of the record name `name` to `ids`, in place of
    /// any earlier ones.
    pub fn save_record(&mut self, name: String, ids: RecordIdCache)
        requires
            old(self).wf(),
        ensures
            final(self).wf(),
            final(self)@ == old(self)@.with_ids(name@, ids@),
    {
        if !self.records.contains_key(name.as_str()) {
            proof {
                lemma_lists_push(self.record_names@, self.records@.dom(), name);
            }
            self.record_names.push(name.clone());
        } else {
            assert(self.records@.dom().insert(name@) =~= self.records@.dom());
        }
        self.records.insert(name, ids);
        proof {
            assert(final(self)@.records =~= old(self)@.records.insert(name@, ids@));
        }
    }

    /// Takes in a record seen at the provider under the name `name`: its
    /// identifier becomes the one of its family, the other family keeps what
    /// it had. A name that had no entry gets one.
    pub fn update_record(&mut self, name: &str, record: DnsRecord)
        requires
            old(self).wf(),
        ensures
            final(self).wf(),
            final(self)@ == old(self)@.with_record(name@, record@),
    {
        let mut ids = match self.records.get(name) {
            Some(ids) => ids.clone(),
            None => RecordIdCache::default(),
        };
        ids.update(record);
        self.save_record(name.to_owned(), ids);
    }

    /// Takes in a zone listing of the provider: every zone in it is
    /// remembered, not only the one that was missed.
    pub fn save_zones(&mut self, listing: &Vec<Zone>)
        requires
            old(self).wf(),
        ensures
            final(self).wf(),
            final(self)@ == old(self)@.with_zones(listing.deep_view()),
    {
        let ghost all = listing.deep_view();
        let mut i: usize = 0;
        while i < listing.len()
            invariant
                i <= listing.len(),
                all == listing.deep_view(),
                self.wf(),
                self@ == old(self)@.with_zones(all.take(i as int)),
            decreases listing.len() - i,
        {
            let zone = &listing[i];
            proof {
                assert(all.take(i + 1).drop_last() =~= all.take(i as int));
                assert(all.take(i + 1).last() == zone@);
            }
            self.save_zone(zone.name.clone(), zone.id.clone());
            i += 1;
        }
        proof {
            assert(all.take(i as int) =~= all);
        }
    }

    /// Takes in a record listing that the provider gave for the name `name`:
    /// every record in it is applied, so one listing fills both families.
    pub fn update_records(&mut self, name: &str, listing: &Vec<DnsRecord>)
        requires
            old(self).wf(),
        ensures
            final(self).wf(),
            final(self)@ == old(self)@.with_records(name@, listing.deep_view()),
    {
        let ghost all = listing.deep_view();
        let mut i: usize = 0;
        while i < listing.len()
            invariant
                i <= listing.len(),
                all == listing.deep_view(),
                self.wf(),
                self@ == old(self)@.with_records(name@, all.take(i as int)),
            decreases listing.len() - i,
        {
            let record = &listing[i];
            proof {
                assert(all.take(i + 1).drop_last() =~= all.take(i as int));
                assert(all.take(i + 1).last() == record@);
            }
            self.update_record(name, record.clone());
            i += 1;
        }
        proof {
            assert(all.take(i as int) =~= all);
        }
    }

    /// Everything the cache holds, each entry once, in the order in which the
    /// names were first seen. Restoring the snapshot gives this cache back.
    pub fn save(&self) -> (snapshot: CacheSnapshot)
        requires
            self.wf(),
        ensures
            snapshot@.depicts(self@),
            snapshot@.cache() == self@,
    {
        let mut zones: Vec<(String, String)> = Vec::new();
        let mut i: usize = 0;
        while i < self.zone_names.len()
            invariant
                i <= self.zone_names.len(),
                self.wf(),
                zones.len() == i,
                forall|k: int|
                    0 <= k < i ==> (#[trigger] zones@[k]).0@ == self.zone_names@[k]@ && zones@[k].1@
                        == self@.zones[self.zone_names@[k]@],
            decreases self.zone_names.len() - i,
        {
            let name = &self.zone_names[i];
            match self.zones.get(name.as_str()) {
                Some(id) => {
                    zones.push((name.clone(), id.clone()));
                },
                None => {
                    assert(false);
                },
            }
            i += 1;
        }
        let mut records: Vec<(String, RecordIdCache)> = Vec::new();
        let mut j: usize = 0;
        while j < self.record_names.len()
            invariant
                j <= self.record_names.len(),
                self.wf(),
                records.len() == j,
                forall|k: int|
                    0 <= k < j ==> (#[trigger] records@[k]).0@ == self.record_names@[k]@
                        && records@[k].1@ == self@.records[self.record_names@[k]@],
            decreases self.record_names.len() - j,
        {
            let name = &self.record_names[j];
            match self.records.get(name.as_str()) {
                Some(ids) => {
                    records.push((name.clone(), ids.clone()));
                },
                None => {
                    assert(false);
                },
            }
            j += 1;
        }
        let snapshot = CacheSnapshot { zones, records };
        proof {
            let view = snapshot@;
            assert forall|k: Seq<char>| #[trigger] self@.zones.contains_key(k) implies exists|
                i: int,
            | 0 <= i < view.zones.len() && #[trigger] view.zones[i].0 == k by {
                let i = choose|i: int|
                    0 <= i < self.zone_names@.len() && #[trigger] self.zone_names@[i]@ == k;
                assert(snapshot.zones@[i].0@ == k);
                assert(view.zones[i].0 == k);
            }
            assert forall|i: int| 0 <= i < view.zones.len() implies self@.zones.contains_key(
                #[trigger] view.zones[i].0,
            ) && self@.zones[view.zones[i].0] == view.zones[i].1 by {
                assert(snapshot.zones@[i].0@ == self.zone_names@[i]@);
            }
            assert forall|i: int, j: int| 0 <= i < j < view.zones.len() implies #[trigger] view.zones[i].0
                != #[trigger] view.zones[j].0 by {
                assert(snapshot.zones@[i].0@ == self.zone_names@[i]@);
                assert(snapshot.zones@[j].0@ == self.zone_names@[j]@);
            }
            assert forall|k: Seq<char>| #[trigger] self@.records.contains_key(k) implies exists|
                i: int,
            | 0 <= i < view.records.len() && #[trigger] view.records[i].0 == k by {
                let i = choose|i: int|
                    0 <= i < self.record_names@.len() && #[trigger] self.record_names@[i]@ == k;
                assert(snapshot.records@[i].0@ == k);
                assert(view.records[i].0 == k);
            }
            assert forall|i: int| 0 <= i < view.records.len() implies self@.records.contains_key(
                #[trigger] view.records[i].0,
            ) && self@.records[view.records[i].0] == view.records[i].1 by {
                assert(snapshot.records@[i].0@ == self.record_names@[i]@);
            }
            assert forall|i: int, j: int|
                0 <= i < j < view.records.len() implies #[trigger] view.records[i].0
                != #[trigger] view.records[j].0 by {
                assert(snapshot.records@[i].0@ == self.record_names@[i]@);
                assert(snapshot.records@[j].0@ == self.record_names@[j]@);
            }
            lemma_exact_collects(view.zones, self@.zones);
            lemma_exact_collects(view.records, self@.records);
        }
        snapshot
    }

    /// The cache that `stored` restores to; the empty cache where nothing
    /// usable was stored.
    pub fn load(stored: Option<&CacheSnapshot>) -> (cache: IdCache)
        ensures
            cache.wf(),
            cache@ == match stored {
                Some(snapshot) => snapshot@.cache(),
                None => IdCacheView::empty(),
            },
    {
        let mut cache = IdCache::new();
        let snapshot = match stored {
            Some(snapshot) => snapshot,
            None => {
                return cache;
            },
        };
        let ghost view = snapshot@;
        let mut i: usize = 0;
        while i < snapshot.zones.len()
            invariant
                i <= snapshot.zones.len(),
                view == snapshot@,
                cache.wf(),
                cache@.zones == collected(view.zones.take(i as int)),
                cache@.records == Map::<Seq<char>, RecordIds>::empty(),
            decreases snapshot.zones.len() - i,
        {
            let entry = &snapshot.zones[i];
            proof {
                assert(view.zones.take(i + 1).drop_last() =~= view.zones.take(i as int));
                assert(view.zones.take(i + 1).last() == (entry.0@, entry.1@));
            }
            cache.save_zone(entry.0.clone(), entry.1.clone());
            i += 1;
        }
        proof {
            assert(view.zones.take(i as int) =~= view.zones);
        }
        let mut j: usize = 0;
        while j < snapshot.records.len()
            invariant
                j <= snapshot.records.len(),
                view == snapshot@,
                cache.wf(),
                cache@.zones == collected(view.zones),
                cache@.records == collected(view.records.take(j as int)),
            decreases snapshot.records.len() - j,
        {
            let entry = &snapshot.records[j];
            proof {
                assert(view.records.take(j + 1).drop_last() =~= view.records.take(j as int));
                assert(view.records.take(j + 1).last() == (entry.0@, entry.1@));
            }
            cache.save_record(entry.0.clone(), entry.1.clone());
            j += 1;
        }
        proof {
            assert(view.records.take(j as int) =~= view.records);
        }
        cache
    }
}

impl Default for IdCache {
    fn default() -> (cache: IdCache)
        ensures
            cache.wf(),
            cache@ == IdCacheView::empty(),
    {
        IdCache::new()
    }
}

/// The identifier a zone listing gives the zone `zone`: that of the last
/// entry of that name, as a later entry replaces an earlier one.
pub open spec fn listed_id(listing: Seq<ZoneView>, zone: Seq<char>) -> Option<Seq<char>>
    decreases listing.len(),
{
    if listing.len() == 0 {
        None
    } else if listing.last().name == zone {
        Some(listing.last().id)
    } else {
        listed_id(listing.drop_last(), zone)
    }
}

/// A listing gives a zone an identifier exactly if it has an entry of that
/// name.
pub proof fn lemma_listed_id_is_some(listing: Seq<ZoneView>, zone: Seq<char>)
    ensures
        listed_id(listing, zone) is Some <==> exists|i: int|
            0 <= i < listing.len() && #[trigger] listing[i].name == zone,
        listed_id(listing, zone) matches Some(id) ==> exists|i: int|
            0 <= i < listing.len() && #[trigger] listing[i].name == zone && listing[i].id == id,
    decreases listing.len(),
{
    if listing.len() > 0 {
        let front = listing.drop_last();
        lemma_listed_id_is_some(front, zone);
        if listing.last().name == zone {
            assert(listing[listing.len() - 1].name == zone);
        } else {
            if listed_id(front, zone) is Some {
                let i = choose|i: int|
                    0 <= i < front.len() && #[trigger] front[i].name == zone && front[i].id
                        == listed_id(front, zone)->0;
                assert(listing[i] == front[i]);
            }
            if exists|i: int| 0 <= i < listing.len() && #[trigger] listing[i].name == zone {
                let i = choose|i: int| 0 <= i < listing.len() && #[trigger] listing[i].name == zone;
                assert(front[i] == listing[i]);
            }
        }
    }
}

/// Taking a zone listing in makes the cache answer with the listing's
/// identifier for every zone the listing names, leaves its answer for every
/// other zone as it was, and leaves the records alone.
pub proof fn lemma_with_zones(cache: IdCacheView, listing: Seq<ZoneView>, zone: Seq<char>)
    ensures
        cache.with_zones(listing).zone(zone) == match listed_id(listing, zone) {
            Some(id) => Some(id),
            None => cache.zone(zone),
        },
        cache.with_zones(listing).records == cache.records,
    decreases listing.len(),
{
    if listing.len() > 0 {
        lemma_with_zones(cache, listing.drop_last(), zone);
    }
}

/// A cache misses a zone; the provider's zones are listed once and taken in.
/// If the zone exists, that is if the listing names it, the cache now
/// answers, with the identifier the listing gives. If it does not exist, the
/// cache misses it after the refresh as it did before.
pub proof fn lemma_zone_miss_converges(cache: IdCacheView, listing: Seq<ZoneView>, zone: Seq<char>)
    requires
        cache.zone(zone) is None,
    ensures
        cache.with_zones(listing).zone(zone) is Some <==> exists|i: int|
            0 <= i < listing.len() && #[trigger] listing[i].name == zone,
        cache.with_zones(listing).zone(zone) == listed_id(listing, zone),
{
    lemma_with_zones(cache, listing, zone);
    lemma_listed_id_is_some(listing, zone);
}

/// Taking the same zone listing in a second time changes nothing: a
/// duplicate refresh is wasteful, never wrong.
pub proof fn lemma_zone_refresh_is_idempotent(cache: IdCacheView, listing: Seq<ZoneView>)
    ensures
        cache.with_zones(listing).with_zones(listing) == cache.with_zones(listing),
{
    let once = cache.with_zones(listing);
    let twice = once.with_zones(listing);
    assert forall|zone: Seq<char>|
        (#[trigger] once.zones.dom().contains(zone)) == twice.zones.dom().contains(zone) && (
        once.zones.dom().contains(zone) ==> once.zones[zone] == twice.zones[zone]) by {
        lemma_with_zones(cache, listing, zone);
        lemma_with_zones(once, listing, zone);
        assert(once.zone(zone) == twice.zone(zone));
    }
    assert(once.zones =~= twice.zones);
    lemma_with_zones(once, listing, seq![]);
}

/// Two zone listings that give a zone the same identifier leave the cache
/// with that identifier in whichever order they are taken in.
pub proof fn lemma_zone_refreshes_agree(
    cache: IdCacheView,
    first: Seq<ZoneView>,
    second: Seq<ZoneView>,
    zone: Seq<char>,
)
    requires
        listed_id(first, zone) is Some,
        listed_id(first, zone) == listed_id(second, zone),
    ensures
        cache.with_zones(first).with_zones(second).zone(zone) == listed_id(first, zone),
        cache.with_zones(second).with_zones(first).zone(zone) == listed_id(first, zone),
{
    lemma_with_zones(cache.with_zones(first), second, zone);
    lemma_with_zones(cache.with_zones(second), first, zone);
}

/// Seeing a record never makes the cache forget an identifier: what was
/// known stays known, for every name and family, and the zones are left
/// alone.
pub proof fn lemma_with_record_keeps(
    cache: IdCacheView,
    name: Seq<char>,
    record: DnsRecordView,
    other: Seq<char>,
    family: Family,
)
    ensures
        cache.record(other, family) is Some ==> cache.with_record(name, record).record(
            other,
            family,
        ) is Some,
        cache.with_record(name, record).zones == cache.zones,
        other != name ==> cache.with_record(name, record).record(other, family) == cache.record(
            other,
            family,
        ),
        record.content.family_of() == Some(family) ==> cache.with_record(name, record).record(
            name,
            family,
        ) == Some(record.id),
        record.content.family_of() != Some(family) ==> cache.with_record(name, record).record(
            name,
            family,
        ) == cache.record(name, family),
{
}

/// Taking a record listing in never makes the cache forget an identifier,
/// and leaves the zones alone.
pub proof fn lemma_with_records_keeps(
    cache: IdCacheView,
    name: Seq<char>,
    listing: Seq<DnsRecordView>,
    other: Seq<char>,
    family: Family,
)
    ensures
        cache.record(other, family) is Some ==> cache.with_records(name, listing).record(
            other,
            family,
        ) is Some,
        cache.with_records(name, listing).zones == cache.zones,
    decreases listing.len(),
{
    if listing.len() > 0 {
        lemma_with_records_keeps(cache, name, listing.drop_last(), other, family);
        lemma_with_record_keeps(
            cache.with_records(name, listing.drop_last()),
            name,
            listing.last(),
            other,
            family,
        );
    }
}

/// Once a record listing that holds a record of `family` is taken in under
/// a name, the cache holds an identifier for that name and family: that of
/// the last such record of the listing.
pub proof fn lemma_listed_record_is_known(
    cache: IdCacheView,
    name: Seq<char>,
    listing: Seq<DnsRecordView>,
    family: Family,
    i: int,
)
    requires
        0 <= i < listing.len(),
        listing[i].content.family_of() == Some(family),
    ensures
        cache.with_records(name, listing).record(name, family) is Some,
        exists|j: int|
            i <= j < listing.len() && listing[j].content.family_of() == Some(family)
                && cache.with_records(name, listing).record(name, family) == Some(
                #[trigger] listing[j].id,
            ),
    decreases listing.len(),
{
    let front = listing.drop_last();
    let last = listing.last();
    lemma_with_record_keeps(cache.with_records(name, front), name, last, name, family);
    if last.content.family_of() == Some(family) {
        assert(listing[listing.len() - 1] == last);
    } else {
        lemma_listed_record_is_known(cache, name, front, family, i);
        let j = choose|j: int|
            i <= j < front.len() && front[j].content.family_of() == Some(family)
                && cache.with_records(name, front).record(name, family) == Some(
                #[trigger] front[j].id,
            );
        assert(listing[j] == front[j]);
    }
}

/// A record listing that holds no record of `family` leaves the identifier
/// of that family as it was, for every name.
pub proof fn lemma_unlisted_record_is_unchanged(
    cache: IdCacheView,
    name: Seq<char>,
    listing: Seq<DnsRecordView>,
    other: Seq<char>,
    family: Family,
)
    requires
        forall|i: int|
            0 <= i < listing.len() ==> (#[trigger] listing[i]).content.family_of() != Some(family),
    ensures
        cache.with_records(name, listing).record(other, family) == cache.record(other, family),
    decreases listing.len(),
{
    if listing.len() > 0 {
        let front = listing.drop_last();
        assert forall|i: int| 0 <= i < front.len() implies (#[trigger] front[i]).content.family_of()
            != Some(family) by {
            assert(front[i] == listing[i]);
        }
        lemma_unlisted_record_is_unchanged(cache, name, front, other, family);
        assert(listing[listing.len() - 1] == listing.last());
        lemma_with_record_keeps(cache.with_records(name, front), name, listing.last(), other, family);
    }
}

/// Seeing the same record under the same name a second time changes
/// nothing.
pub proof fn lemma_with_record_is_idempotent(
    cache: IdCacheView,
    name: Seq<char>,
    record: DnsRecordView,
)
    ensures
        cache.with_record(name, record).with_record(name, record) == cache.with_record(
            name,
            record,
        ),
{
    let once = cache.with_record(name, record);
    assert(once.with_record(name, record).records =~= once.records);
}

/// Saving a cache and loading what was saved gives the cache back: a
/// snapshot that depicts a cache restores to it.
pub proof fn lemma_save_then_load(cache: IdCacheView, snapshot: SnapshotView)
    requires
        snapshot.depicts(cache),
    ensures
        snapshot.cache() == cache,
{
    lemma_exact_collects(snapshot.zones, cache.zones);
    lemma_exact_collects(snapshot.records, cache.records);
}

} // verus!
