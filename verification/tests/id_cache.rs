use cf_ddns::addr::{IpAddress, Ipv4, Ipv6};
use cf_ddns::cloudflare::record::{DnsContent, DnsRecord};
use cf_ddns::cloudflare::zone::Zone;
use cf_ddns::updater::id_cache::{CacheSnapshot, IdCache, RecordIdCache};

fn v4() -> IpAddress {
    IpAddress::V4(Ipv4::new(203, 0, 113, 5))
}

fn v6() -> IpAddress {
    IpAddress::V6(Ipv6(0x2001_0db8_0000_0000_0000_0000_0000_0005))
}

fn a_record(id: &str, name: &str) -> DnsRecord {
    DnsRecord {
        id: id.to_string(),
        name: name.to_string(),
        content: DnsContent::A { content: Ipv4::new(203, 0, 113, 5) },
    }
}

fn aaaa_record(id: &str, name: &str) -> DnsRecord {
    DnsRecord {
        id: id.to_string(),
        name: name.to_string(),
        content: DnsContent::AAAA { content: Ipv6(5) },
    }
}

fn zone(id: &str, name: &str) -> Zone {
    Zone { id: id.to_string(), name: name.to_string() }
}

fn sorted(mut snapshot: CacheSnapshot) -> CacheSnapshot {
    snapshot.zones.sort();
    snapshot.records.sort_by(|a, b| a.0.cmp(&b.0));
    snapshot
}

fn round_trip(cache: &IdCache) -> IdCache {
    let saved = cache.save();
    IdCache::load(Some(&saved))
}

#[test]
fn empty_cache_knows_nothing() {
    let cache = IdCache::new();
    assert_eq!(cache.get_zone("example.com"), None);
    assert_eq!(cache.get_record("home.example.com", &v4()), None);
    assert_eq!(cache.get_record("home.example.com", &v6()), None);
    assert_eq!(cache.save(), CacheSnapshot { zones: vec![], records: vec![] });
}

#[test]
fn saved_zone_is_found_again() {
    let mut cache = IdCache::default();
    cache.save_zone("example.com".to_string(), "z1".to_string());
    assert_eq!(cache.get_zone("example.com"), Some("z1".to_string()));
    assert_eq!(cache.get_zone("example.org"), None);
    cache.save_zone("example.com".to_string(), "z2".to_string());
    assert_eq!(cache.get_zone("example.com"), Some("z2".to_string()));
    assert_eq!(cache.save().zones, vec![("example.com".to_string(), "z2".to_string())]);
}

#[test]
fn zone_miss_converges_after_one_listing() {
    let mut cache = IdCache::new();
    assert_eq!(cache.get_zone("example.com"), None);
    assert_eq!(cache.get_zone("missing.test"), None);
    cache.save_zones(&vec![zone("z1", "example.com"), zone("z2", "example.net")]);
    assert_eq!(cache.get_zone("example.com"), Some("z1".to_string()));
    assert_eq!(cache.get_zone("example.net"), Some("z2".to_string()));
    assert_eq!(cache.get_zone("missing.test"), None);
}

#[test]
fn duplicate_zone_refresh_changes_nothing() {
    let listing = vec![zone("z1", "example.com"), zone("z2", "example.net")];
    let mut cache = IdCache::new();
    cache.save_zones(&listing);
    let once = cache.save();
    cache.save_zones(&listing);
    assert_eq!(cache.save(), once);
}

#[test]
fn later_zone_of_a_listing_wins() {
    let mut cache = IdCache::new();
    cache.save_zones(&vec![zone("old", "example.com"), zone("new", "example.com")]);
    assert_eq!(cache.get_zone("example.com"), Some("new".to_string()));
}

#[test]
fn update_record_sets_only_its_family() {
    let mut cache = IdCache::new();
    cache.update_record("home.example.com", a_record("r4", "home.example.com"));
    assert_eq!(cache.get_record("home.example.com", &v4()), Some("r4".to_string()));
    assert_eq!(cache.get_record("home.example.com", &v6()), None);
    cache.update_record("home.example.com", aaaa_record("r6", "home.example.com"));
    assert_eq!(cache.get_record("home.example.com", &v4()), Some("r4".to_string()));
    assert_eq!(cache.get_record("home.example.com", &v6()), Some("r6".to_string()));
    assert_eq!(cache.get_record("other.example.com", &v4()), None);
}

#[test]
fn update_record_ignores_other_record_types() {
    let mut cache = IdCache::new();
    cache.update_record("home.example.com", a_record("r4", "home.example.com"));
    cache.update_record(
        "home.example.com",
        DnsRecord {
            id: "txt".to_string(),
            name: "home.example.com".to_string(),
            content: DnsContent::Other,
        },
    );
    assert_eq!(cache.get_record("home.example.com", &v4()), Some("r4".to_string()));
    assert_eq!(cache.get_record("home.example.com", &v6()), None);
}

#[test]
fn update_record_creates_a_default_entry() {
    let mut cache = IdCache::new();
    cache.update_record(
        "home.example.com",
        DnsRecord {
            id: "txt".to_string(),
            name: "home.example.com".to_string(),
            content: DnsContent::Other,
        },
    );
    assert_eq!(
        cache.save().records,
        vec![("home.example.com".to_string(), RecordIdCache { v4: None, v6: None })]
    );
}

#[test]
fn update_record_twice_is_the_same_as_once() {
    let mut cache = IdCache::new();
    cache.update_record("home.example.com", a_record("r4", "home.example.com"));
    let once = cache.save();
    cache.update_record("home.example.com", a_record("r4", "home.example.com"));
    assert_eq!(cache.save(), once);
}

#[test]
fn one_listing_fills_both_families() {
    let mut cache = IdCache::new();
    cache.update_records(
        "home.example.com",
        &vec![a_record("r4", "home.example.com"), aaaa_record("r6", "home.example.com")],
    );
    assert_eq!(cache.get_record("home.example.com", &v4()), Some("r4".to_string()));
    assert_eq!(cache.get_record("home.example.com", &v6()), Some("r6".to_string()));
}

#[test]
fn empty_listing_leaves_the_record_unknown() {
    let mut cache = IdCache::new();
    cache.update_records("home.example.com", &vec![]);
    assert_eq!(cache.get_record("home.example.com", &v4()), None);
    assert_eq!(cache.save().records, vec![]);
}

#[test]
fn save_record_replaces_both_families() {
    let mut cache = IdCache::new();
    cache.update_record("home.example.com", a_record("r4", "home.example.com"));
    cache.save_record(
        "home.example.com".to_string(),
        RecordIdCache { v4: None, v6: Some("r6".to_string()) },
    );
    assert_eq!(cache.get_record("home.example.com", &v4()), None);
    assert_eq!(cache.get_record("home.example.com", &v6()), Some("r6".to_string()));
}

#[test]
fn record_ids_get_for_picks_the_family() {
    let ids = RecordIdCache { v4: Some("r4".to_string()), v6: None };
    assert_eq!(ids.get_for(&v4()), Some("r4".to_string()));
    assert_eq!(ids.get_for(&v6()), None);
    let mut ids = RecordIdCache::default();
    assert_eq!(ids, RecordIdCache { v4: None, v6: None });
    ids.update(aaaa_record("r6", "home.example.com"));
    assert_eq!(ids, RecordIdCache { v4: None, v6: Some("r6".to_string()) });
    ids.update(a_record("r4", "home.example.com"));
    assert_eq!(ids, RecordIdCache { v4: Some("r4".to_string()), v6: Some("r6".to_string()) });
}

#[test]
fn round_trip_of_the_empty_cache() {
    let cache = IdCache::new();
    let loaded = round_trip(&cache);
    assert_eq!(loaded.save(), CacheSnapshot { zones: vec![], records: vec![] });
    assert_eq!(loaded.get_zone("example.com"), None);
}

#[test]
fn round_trip_of_a_single_zone_and_record() {
    let mut cache = IdCache::new();
    cache.save_zone("example.com".to_string(), "z1".to_string());
    cache.update_record("home.example.com", a_record("r4", "home.example.com"));
    let loaded = round_trip(&cache);
    assert_eq!(loaded.get_zone("example.com"), Some("z1".to_string()));
    assert_eq!(loaded.get_record("home.example.com", &v4()), Some("r4".to_string()));
    assert_eq!(loaded.get_record("home.example.com", &v6()), None);
    assert_eq!(sorted(loaded.save()), sorted(cache.save()));
}

#[test]
fn round_trip_of_a_multi_family_record() {
    let mut cache = IdCache::new();
    cache.save_zone("example.com".to_string(), "z1".to_string());
    cache.save_zone("example.net".to_string(), "z2".to_string());
    cache.update_record("home.example.com", a_record("r4", "home.example.com"));
    cache.update_record("home.example.com", aaaa_record("r6", "home.example.com"));
    cache.update_record("www.example.net", aaaa_record("w6", "www.example.net"));
    let loaded = round_trip(&cache);
    assert_eq!(loaded.get_zone("example.com"), Some("z1".to_string()));
    assert_eq!(loaded.get_zone("example.net"), Some("z2".to_string()));
    assert_eq!(loaded.get_record("home.example.com", &v4()), Some("r4".to_string()));
    assert_eq!(loaded.get_record("home.example.com", &v6()), Some("r6".to_string()));
    assert_eq!(loaded.get_record("www.example.net", &v4()), None);
    assert_eq!(loaded.get_record("www.example.net", &v6()), Some("w6".to_string()));
    assert_eq!(sorted(loaded.save()), sorted(cache.save()));
}

#[test]
fn snapshot_lists_names_in_the_order_first_seen() {
    let mut cache = IdCache::new();
    cache.save_zone("b.test".to_string(), "zb".to_string());
    cache.save_zone("a.test".to_string(), "za".to_string());
    cache.save_zone("b.test".to_string(), "zb2".to_string());
    assert_eq!(
        cache.save().zones,
        vec![("b.test".to_string(), "zb2".to_string()), ("a.test".to_string(), "za".to_string())]
    );
}

#[test]
fn loading_nothing_gives_the_empty_cache() {
    let cache = IdCache::load(None);
    assert_eq!(cache.save(), CacheSnapshot { zones: vec![], records: vec![] });
}

#[test]
fn loading_a_snapshot_with_a_repeated_name_keeps_the_last() {
    let stored = CacheSnapshot {
        zones: vec![
            ("example.com".to_string(), "old".to_string()),
            ("example.com".to_string(), "new".to_string()),
        ],
        records: vec![
            ("home.example.com".to_string(), RecordIdCache { v4: Some("a".to_string()), v6: None }),
            ("home.example.com".to_string(), RecordIdCache { v4: None, v6: Some("b".to_string()) }),
        ],
    };
    let cache = IdCache::load(Some(&stored));
    assert_eq!(cache.get_zone("example.com"), Some("new".to_string()));
    assert_eq!(cache.get_record("home.example.com", &v4()), None);
    assert_eq!(cache.get_record("home.example.com", &v6()), Some("b".to_string()));
    assert_eq!(cache.save().zones.len(), 1);
    assert_eq!(cache.save().records.len(), 1);
}
