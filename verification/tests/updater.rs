use cf_ddns::addr::{IpAddress, Ipv4, Ipv6};
use cf_ddns::cloudflare::record::{DnsContent, DnsRecord};
use cf_ddns::cloudflare::zone::Zone;
use cf_ddns::config::ZoneRecord;
use cf_ddns::updater::id_cache::{CacheSnapshot, IdCache, RecordIdCache};
use cf_ddns::updater::lookup_cache::UpdateResult;
use cf_ddns::updater::task::{Action, Event, Failure, Outcome, Step};
use cf_ddns::updater::{Idle, PassAction, PassEvent, Updater};

/// A provider that lives in memory and writes down every call.
struct Provider {
    zones: Vec<Zone>,
    records: Vec<(String, DnsRecord)>,
    calls: Vec<String>,
    saves: Vec<CacheSnapshot>,
    failing: Option<&'static str>,
    created: u32,
}

fn show(addr: IpAddress) -> String {
    match addr {
        IpAddress::V4(a) => {
            let b = a.0.to_be_bytes();
            format!("{}.{}.{}.{}", b[0], b[1], b[2], b[3])
        }
        IpAddress::V6(a) => format!("{:x}", a.0),
    }
}

impl Provider {
    fn new(zones: &[(&str, &str)]) -> Provider {
        Provider {
            zones: zones
                .iter()
                .map(|(id, name)| Zone { id: id.to_string(), name: name.to_string() })
                .collect(),
            records: vec![],
            calls: vec![],
            saves: vec![],
            failing: None,
            created: 0,
        }
    }

    fn with_record(mut self, zone_id: &str, id: &str, name: &str, addr: IpAddress) -> Provider {
        self.records.push((
            zone_id.to_string(),
            DnsRecord { id: id.to_string(), name: name.to_string(), content: DnsContent::from(addr) },
        ));
        self
    }

    fn fails(&self, call: &str) -> Option<String> {
        if self.failing == Some(call) {
            Some(format!("{} refused", call))
        } else {
            None
        }
    }

    fn perform(&mut self, action: Action, updater: &Updater) -> Option<Event> {
        match action {
            Action::ListZones => {
                self.calls.push("list_zones".to_string());
                Some(Event::Zones(match self.fails("list_zones") {
                    Some(e) => Err(e),
                    None => Ok(self.zones.clone()),
                }))
            }
            Action::ListRecords { zone_id, name } => {
                self.calls.push(format!("list_records({}, {})", zone_id, name));
                Some(Event::Records(match self.fails("list_records") {
                    Some(e) => Err(e),
                    None => Ok(self
                        .records
                        .iter()
                        .filter(|(z, r)| *z == zone_id && r.name == name)
                        .map(|(_, r)| r.clone())
                        .collect()),
                }))
            }
            Action::CreateRecord { zone_id, name, addr } => {
                self.calls.push(format!("create_record({}, {}, {})", zone_id, name, show(addr)));
                Some(Event::Created(match self.fails("create_record") {
                    Some(e) => Err(e),
                    None => {
                        self.created += 1;
                        let record = DnsRecord {
                            id: format!("new{}", self.created),
                            name,
                            content: DnsContent::from(addr),
                        };
                        self.records.push((zone_id, record.clone()));
                        Ok(record)
                    }
                }))
            }
            Action::UpdateRecord { zone_id, record_id, name, addr } => {
                self.calls.push(format!(
                    "update_record({}, {}, {}, {})",
                    zone_id,
                    record_id,
                    name,
                    show(addr)
                ));
                Some(Event::Updated(match self.fails("update_record") {
                    Some(e) => Err(e),
                    None => {
                        let record =
                            DnsRecord { id: record_id, name, content: DnsContent::from(addr) };
                        for (z, r) in self.records.iter_mut() {
                            if *z == zone_id && r.id == record.id {
                                *r = record.clone();
                            }
                        }
                        Ok(record)
                    }
                }))
            }
            Action::Persist => Some(Event::Saved(match self.fails("save") {
                Some(e) => Err(e),
                None => {
                    self.saves.push(updater.save());
                    Ok(())
                }
            })),
            Action::Finish => None,
        }
    }
}

/// Runs one task to its end and returns where it ended.
fn reconcile(updater: &mut Updater, provider: &mut Provider, rec: &ZoneRecord, addr: IpAddress) -> Step {
    let mut step = Step::Start;
    let mut event = Event::Begin;
    for _ in 0..16 {
        let (next, action) = updater.update_record(rec, addr, step, event);
        step = next;
        match provider.perform(action, updater) {
            Some(answer) => event = answer,
            None => return step,
        }
    }
    panic!("the task did not end: {:?}", step);
}

fn home() -> ZoneRecord {
    ZoneRecord::new("example.com".to_string(), "home.example.com".to_string())
}

fn lookup() -> Ipv4 {
    Ipv4::new(203, 0, 113, 5)
}

fn home_record(id: &str, addr: IpAddress) -> DnsRecord {
    DnsRecord { id: id.to_string(), name: "home.example.com".to_string(), content: DnsContent::from(addr) }
}

#[test]
fn empty_cache_lists_then_creates_the_record() {
    let mut provider = Provider::new(&[("z1", "example.com")]);
    let mut updater = Updater::new(IdCache::load(None));
    let records = vec![home()];

    assert_eq!(updater.update_v4(&records, PassEvent::Begin), PassAction::Lookup);
    let action = updater.update_v4(&records, PassEvent::Address(lookup()));
    assert_eq!(
        action,
        PassAction::Reconcile {
            addr: lookup(),
            change: UpdateResult::Initialized,
            records: vec![home()],
        }
    );

    let addr = IpAddress::V4(lookup());
    let end = reconcile(&mut updater, &mut provider, &home(), addr);
    assert_eq!(
        provider.calls,
        vec![
            "list_zones".to_string(),
            "list_records(z1, home.example.com)".to_string(),
            "create_record(z1, home.example.com, 203.0.113.5)".to_string(),
        ]
    );
    assert_eq!(end, Step::Done { record: home_record("new1", addr), outcome: Outcome::Created });
    assert_eq!(updater.id_cache().get_zone("example.com"), Some("z1".to_string()));
    assert_eq!(updater.id_cache().get_record("home.example.com", &addr), Some("new1".to_string()));
    assert_eq!(updater.id_cache().get_record("home.example.com", &IpAddress::V6(Ipv6(1))), None);
    assert_eq!(provider.saves.len(), 3);
    assert_eq!(
        provider.saves[2],
        CacheSnapshot {
            zones: vec![("example.com".to_string(), "z1".to_string())],
            records: vec![(
                "home.example.com".to_string(),
                RecordIdCache { v4: Some("new1".to_string()), v6: None }
            )],
        }
    );
}

#[test]
fn known_record_and_unchanged_address_make_no_call() {
    let addr = IpAddress::V4(lookup());
    let mut provider =
        Provider::new(&[("z1", "example.com")]).with_record("z1", "r4", "home.example.com", addr);
    let mut cache = IdCache::new();
    cache.save_zone("example.com".to_string(), "z1".to_string());
    cache.update_record("home.example.com", home_record("r4", addr));
    let mut updater = Updater::new(cache);
    let records = vec![home()];

    // The first cycle stores the address and brings the record in line.
    match updater.update_v4(&records, PassEvent::Address(lookup())) {
        PassAction::Reconcile { change, .. } => assert_eq!(change, UpdateResult::Initialized),
        other => panic!("unexpected {:?}", other),
    }
    reconcile(&mut updater, &mut provider, &home(), addr);
    provider.calls.clear();

    // The second cycle looks the same address up.
    assert_eq!(updater.update_v4(&records, PassEvent::Begin), PassAction::Lookup);
    assert_eq!(
        updater.update_v4(&records, PassEvent::Address(lookup())),
        PassAction::Finish(Idle::Unchanged)
    );
    assert_eq!(provider.calls, Vec::<String>::new());
}

#[test]
fn without_short_circuit_unchanged_address_takes_one_update() {
    let addr = IpAddress::V4(lookup());
    let mut provider =
        Provider::new(&[("z1", "example.com")]).with_record("z1", "r4", "home.example.com", addr);
    let mut cache = IdCache::new();
    cache.save_zone("example.com".to_string(), "z1".to_string());
    cache.update_record("home.example.com", home_record("r4", addr));
    let mut updater = Updater::new(cache);
    updater.set_short_circuit(false);
    let records = vec![home()];
    updater.update_v4(&records, PassEvent::Address(lookup()));
    let before = provider.records.clone();

    assert_eq!(
        updater.update_v4(&records, PassEvent::Address(lookup())),
        PassAction::Reconcile {
            addr: lookup(),
            change: UpdateResult::Unchanged,
            records: vec![home()],
        }
    );
    let end = reconcile(&mut updater, &mut provider, &home(), addr);
    assert_eq!(provider.calls, vec!["update_record(z1, r4, home.example.com, 203.0.113.5)".to_string()]);
    assert_eq!(end, Step::Done { record: home_record("r4", addr), outcome: Outcome::Updated });
    assert_eq!(provider.records, before);
    assert_eq!(provider.saves.len(), 0);
}

#[test]
fn missing_zone_fails_after_one_listing() {
    let mut provider = Provider::new(&[("z9", "example.net")]);
    let mut updater = Updater::new(IdCache::new());
    let addr = IpAddress::V4(lookup());
    let other = ZoneRecord::new("example.net".to_string(), "www.example.net".to_string());

    let end = reconcile(&mut updater, &mut provider, &home(), addr);
    assert_eq!(end, Step::Failed { failure: Failure::ZoneNotFound });
    assert_eq!(provider.calls, vec!["list_zones".to_string()]);

    // A sibling in a zone that exists goes through.
    provider.calls.clear();
    let end = reconcile(&mut updater, &mut provider, &other, addr);
    assert_eq!(
        provider.calls,
        vec![
            "list_records(z9, www.example.net)".to_string(),
            "create_record(z9, www.example.net, 203.0.113.5)".to_string(),
        ]
    );
    assert!(matches!(end, Step::Done { outcome: Outcome::Created, .. }));

    // Within the cycle the missing zone fails the same way again.
    provider.calls.clear();
    let end = reconcile(&mut updater, &mut provider, &home(), addr);
    assert_eq!(end, Step::Failed { failure: Failure::ZoneNotFound });
    assert_eq!(provider.calls, vec!["list_zones".to_string()]);
}

#[test]
fn known_zone_and_record_take_one_update() {
    let old = IpAddress::V4(Ipv4::new(198, 51, 100, 1));
    let addr = IpAddress::V4(lookup());
    let mut provider =
        Provider::new(&[("z1", "example.com")]).with_record("z1", "r4", "home.example.com", old);
    let mut cache = IdCache::new();
    cache.save_zone("example.com".to_string(), "z1".to_string());
    cache.update_record("home.example.com", home_record("r4", old));
    let mut updater = Updater::new(cache);
    let end = reconcile(&mut updater, &mut provider, &home(), addr);
    assert_eq!(provider.calls, vec!["update_record(z1, r4, home.example.com, 203.0.113.5)".to_string()]);
    assert_eq!(end, Step::Done { record: home_record("r4", addr), outcome: Outcome::Updated });
    assert_eq!(provider.records[0].1.content, DnsContent::A { content: lookup() });
}

#[test]
fn record_found_by_listing_is_updated_not_created() {
    let old = IpAddress::V4(Ipv4::new(198, 51, 100, 1));
    let addr = IpAddress::V4(lookup());
    let mut provider = Provider::new(&[("z1", "example.com")])
        .with_record("z1", "r4", "home.example.com", old)
        .with_record("z1", "r6", "home.example.com", IpAddress::V6(Ipv6(6)));
    let mut updater = Updater::new(IdCache::new());
    let end = reconcile(&mut updater, &mut provider, &home(), addr);
    assert_eq!(
        provider.calls,
        vec![
            "list_zones".to_string(),
            "list_records(z1, home.example.com)".to_string(),
            "update_record(z1, r4, home.example.com, 203.0.113.5)".to_string(),
        ]
    );
    assert!(matches!(end, Step::Done { outcome: Outcome::Updated, .. }));
    // One listing filled both families.
    assert_eq!(
        updater.id_cache().get_record("home.example.com", &IpAddress::V6(Ipv6(1))),
        Some("r6".to_string())
    );
    // So the other family needs no listing of its own.
    provider.calls.clear();
    reconcile(&mut updater, &mut provider, &home(), IpAddress::V6(Ipv6(7)));
    assert_eq!(provider.calls, vec!["update_record(z1, r6, home.example.com, 7)".to_string()]);
}

#[test]
fn second_reconciliation_after_a_creation_updates() {
    let mut provider = Provider::new(&[("z1", "example.com")]);
    let mut updater = Updater::new(IdCache::new());
    let addr = IpAddress::V4(lookup());
    reconcile(&mut updater, &mut provider, &home(), addr);
    provider.calls.clear();
    let end = reconcile(&mut updater, &mut provider, &home(), IpAddress::V4(Ipv4::new(203, 0, 113, 6)));
    assert_eq!(provider.calls, vec!["update_record(z1, new1, home.example.com, 203.0.113.6)".to_string()]);
    assert!(matches!(end, Step::Done { outcome: Outcome::Updated, .. }));
    assert_eq!(provider.created, 1);
}

#[test]
fn lost_cache_rediscovers_the_record_without_a_duplicate() {
    let mut provider = Provider::new(&[("z1", "example.com")]);
    let addr = IpAddress::V4(lookup());
    let mut updater = Updater::new(IdCache::new());
    reconcile(&mut updater, &mut provider, &home(), addr);
    // The process dies; the cache file is lost.
    let mut updater = Updater::new(IdCache::load(None));
    provider.calls.clear();
    let end = reconcile(&mut updater, &mut provider, &home(), addr);
    assert_eq!(
        provider.calls,
        vec![
            "list_zones".to_string(),
            "list_records(z1, home.example.com)".to_string(),
            "update_record(z1, new1, home.example.com, 203.0.113.5)".to_string(),
        ]
    );
    assert!(matches!(end, Step::Done { outcome: Outcome::Updated, .. }));
    assert_eq!(provider.records.len(), 1);
}

fn failure_of(call: &'static str, provider: Provider, cache: IdCache) -> (Step, Vec<String>, Updater) {
    let mut provider = provider;
    provider.failing = Some(call);
    let mut updater = Updater::new(cache);
    let end = reconcile(&mut updater, &mut provider, &home(), IpAddress::V4(lookup()));
    (end, provider.calls, updater)
}

#[test]
fn failed_zone_listing_fails_the_task() {
    let (end, calls, updater) =
        failure_of("list_zones", Provider::new(&[("z1", "example.com")]), IdCache::new());
    assert_eq!(
        end,
        Step::Failed { failure: Failure::ListZones("list_zones refused".to_string()) }
    );
    assert_eq!(calls, vec!["list_zones".to_string()]);
    assert_eq!(updater.id_cache().get_zone("example.com"), None);
}

#[test]
fn failed_record_listing_fails_the_task() {
    let (end, calls, _) =
        failure_of("list_records", Provider::new(&[("z1", "example.com")]), IdCache::new());
    assert_eq!(
        end,
        Step::Failed { failure: Failure::ListRecords("list_records refused".to_string()) }
    );
    assert_eq!(
        calls,
        vec!["list_zones".to_string(), "list_records(z1, home.example.com)".to_string()]
    );
}

#[test]
fn failed_creation_fails_the_task_and_caches_nothing() {
    let (end, calls, updater) =
        failure_of("create_record", Provider::new(&[("z1", "example.com")]), IdCache::new());
    assert_eq!(
        end,
        Step::Failed { failure: Failure::CreateRecord("create_record refused".to_string()) }
    );
    assert_eq!(calls.len(), 3);
    assert_eq!(updater.id_cache().get_record("home.example.com", &IpAddress::V4(lookup())), None);
}

#[test]
fn failed_update_fails_the_task() {
    let addr = IpAddress::V4(lookup());
    let mut cache = IdCache::new();
    cache.save_zone("example.com".to_string(), "z1".to_string());
    cache.update_record("home.example.com", home_record("r4", addr));
    let (end, calls, _) = failure_of(
        "update_record",
        Provider::new(&[("z1", "example.com")]).with_record("z1", "r4", "home.example.com", addr),
        cache,
    );
    assert_eq!(
        end,
        Step::Failed { failure: Failure::UpdateRecord("update_record refused".to_string()) }
    );
    assert_eq!(calls, vec!["update_record(z1, r4, home.example.com, 203.0.113.5)".to_string()]);
}

#[test]
fn failed_save_after_zone_listing_is_logged_only() {
    let mut provider = Provider::new(&[("z1", "example.com")]);
    provider.failing = Some("save");
    let mut updater = Updater::new(IdCache::new());
    let addr = IpAddress::V4(lookup());
    let end = reconcile(&mut updater, &mut provider, &home(), addr);
    // No write went through, and the record was reconciled all the same.
    assert_eq!(
        provider.calls,
        vec![
            "list_zones".to_string(),
            "list_records(z1, home.example.com)".to_string(),
            "create_record(z1, home.example.com, 203.0.113.5)".to_string(),
        ]
    );
    assert_eq!(end, Step::Done { record: home_record("new1", addr), outcome: Outcome::Created });
    assert_eq!(provider.saves.len(), 0);
    assert_eq!(updater.id_cache().get_zone("example.com"), Some("z1".to_string()));
    assert_eq!(updater.id_cache().get_record("home.example.com", &addr), Some("new1".to_string()));
}

#[test]
fn failed_save_goes_on_as_a_save_that_went_well() {
    let addr = IpAddress::V4(lookup());
    let steps = || -> Vec<Step> {
        vec![
            Step::SavingZones,
            Step::SavingRecords { zone_id: "z1".to_string() },
            Step::Created { record: home_record("new1", addr) },
        ]
    };
    for known in [false, true] {
        for i in 0..3 {
            let cache = || {
                let mut cache = IdCache::new();
                cache.save_zone("example.com".to_string(), "z1".to_string());
                if known {
                    cache.update_record("home.example.com", home_record("r4", addr));
                }
                cache
            };
            let mut well = Updater::new(cache());
            let mut badly = Updater::new(cache());
            let went_well = well.update_record(&home(), addr, steps().remove(i), Event::Saved(Ok(())));
            let went_badly = badly.update_record(
                &home(),
                addr,
                steps().remove(i),
                Event::Saved(Err("disk full".to_string())),
            );
            assert_eq!(went_well, went_badly);
            assert!(!matches!(went_badly.0, Step::Failed { .. }));
            assert_eq!(well.save(), badly.save());
        }
    }
}

#[test]
fn failed_save_after_zone_listing_resolves_the_zone() {
    let addr = IpAddress::V4(lookup());
    let mut updater = Updater::new(IdCache::new());
    let (step, action) = updater.update_record(&home(), addr, Step::Start, Event::Begin);
    assert_eq!(action, Action::ListZones);
    let listing = vec![Zone { id: "z1".to_string(), name: "example.com".to_string() }];
    let (step, action) = updater.update_record(&home(), addr, step, Event::Zones(Ok(listing)));
    assert_eq!(action, Action::Persist);
    assert_eq!(step, Step::SavingZones);
    let (step, action) =
        updater.update_record(&home(), addr, step, Event::Saved(Err("disk full".to_string())));
    assert_eq!(step, Step::ZoneResolved { zone_id: "z1".to_string() });
    assert_eq!(
        action,
        Action::ListRecords { zone_id: "z1".to_string(), name: "home.example.com".to_string() }
    );
}

#[test]
fn failed_save_after_creation_keeps_the_identifier_in_memory() {
    let addr = IpAddress::V4(lookup());
    let mut updater = Updater::new(IdCache::new());
    let zone_id = "z1".to_string();
    let (step, action) = updater.update_record(
        &home(),
        addr,
        Step::RecordAbsent { zone_id },
        Event::Created(Ok(home_record("new1", addr))),
    );
    assert_eq!(action, Action::Persist);
    assert_eq!(step, Step::Created { record: home_record("new1", addr) });
    let (step, action) =
        updater.update_record(&home(), addr, step, Event::Saved(Err("disk full".to_string())));
    assert_eq!(action, Action::Finish);
    assert_eq!(step, Step::Done { record: home_record("new1", addr), outcome: Outcome::Created });
    assert_eq!(updater.id_cache().get_record("home.example.com", &addr), Some("new1".to_string()));
}

#[test]
fn failed_save_is_worth_a_warning() {
    assert_eq!(
        Event::Saved(Err("disk full".to_string())).warning(),
        Some("Failed to write the cache: disk full".to_string())
    );
    assert_eq!(Event::Saved(Ok(())).warning(), None);
    assert_eq!(Event::Begin.warning(), None);
    assert_eq!(Event::Zones(Err("refused".to_string())).warning(), None);
    assert_eq!(Event::Created(Err("refused".to_string())).warning(), None);
}

#[test]
fn event_out_of_turn_fails_the_task() {
    let addr = IpAddress::V4(lookup());
    let mut updater = Updater::new(IdCache::new());
    let (step, action) = updater.update_record(&home(), addr, Step::Start, Event::Saved(Ok(())));
    assert_eq!(step, Step::Failed { failure: Failure::OutOfTurn });
    assert_eq!(action, Action::Finish);
    let (step, action) =
        updater.update_record(&home(), addr, Step::ListingZones, Event::Records(Ok(vec![])));
    assert_eq!(step, Step::Failed { failure: Failure::OutOfTurn });
    assert_eq!(action, Action::Finish);
    let (step, action) = updater.update_record(
        &home(),
        addr,
        Step::RecordIdResolved { zone_id: "z1".to_string(), record_id: "r4".to_string() },
        Event::Created(Ok(home_record("x", addr))),
    );
    assert_eq!(step, Step::Failed { failure: Failure::OutOfTurn });
    assert_eq!(action, Action::Finish);
    assert_eq!(updater.save(), CacheSnapshot { zones: vec![], records: vec![] });
}

#[test]
fn finished_task_stays_finished() {
    let addr = IpAddress::V4(lookup());
    let mut updater = Updater::new(IdCache::new());
    let done = Step::Done { record: home_record("r4", addr), outcome: Outcome::Updated };
    let (step, action) = updater.update_record(&home(), addr, done, Event::Begin);
    assert_eq!(step, Step::Done { record: home_record("r4", addr), outcome: Outcome::Updated });
    assert_eq!(action, Action::Finish);
    let failed = Step::Failed { failure: Failure::ZoneNotFound };
    let (step, action) =
        updater.update_record(&home(), addr, failed, Event::Zones(Ok(vec![])));
    assert_eq!(step, Step::Failed { failure: Failure::ZoneNotFound });
    assert_eq!(action, Action::Finish);
}

#[test]
fn failure_messages() {
    let rec = home();
    let cases: Vec<(Failure, &str, &str)> = vec![
        (Failure::ListZones("e1".to_string()), "Failed to get the zone identifier", "e1"),
        (
            Failure::ZoneNotFound,
            "Failed to get the zone identifier",
            "Cannot find zone: example.com",
        ),
        (Failure::ListRecords("e3".to_string()), "Failed to get the record identifier", "e3"),
        (Failure::UpdateRecord("e5".to_string()), "Failed to update the record", "e5"),
        (Failure::CreateRecord("e6".to_string()), "Failed to create the record", "e6"),
        (
            Failure::OutOfTurn,
            "Failed to follow the task",
            "the event does not answer the call that was asked for",
        ),
    ];
    for (failure, context, cause) in cases {
        assert_eq!(failure.context(), context);
        assert_eq!(failure.cause(&rec), cause);
    }
}

#[test]
fn pass_without_records_asks_for_nothing() {
    let mut updater = Updater::new(IdCache::new());
    let none: Vec<ZoneRecord> = vec![];
    assert_eq!(updater.update_v4(&none, PassEvent::Begin), PassAction::Finish(Idle::NothingConfigured));
    assert_eq!(updater.update_v6(&none, PassEvent::Begin), PassAction::Finish(Idle::NothingConfigured));
    assert_eq!(
        updater.update_v4(&none, PassEvent::Address(lookup())),
        PassAction::Finish(Idle::NothingConfigured)
    );
    // The address was not taken in: the next observation is still the first.
    assert_eq!(
        updater.update_v4(&vec![home()], PassEvent::Address(lookup())),
        PassAction::Reconcile {
            addr: lookup(),
            change: UpdateResult::Initialized,
            records: vec![home()],
        }
    );
}

#[test]
fn failed_lookup_ends_the_pass_for_this_cycle() {
    let mut updater = Updater::new(IdCache::new());
    let records = vec![home()];
    assert_eq!(updater.update_v6(&records, PassEvent::Begin), PassAction::Lookup);
    assert_eq!(
        updater.update_v6(&records, PassEvent::LookupFailed),
        PassAction::Finish(Idle::LookupFailed)
    );
    // The next cycle tries again.
    assert_eq!(updater.update_v6(&records, PassEvent::Begin), PassAction::Lookup);
    assert_eq!(
        updater.update_v6(&records, PassEvent::Address(Ipv6(5))),
        PassAction::Reconcile { addr: Ipv6(5), change: UpdateResult::Initialized, records: vec![home()] }
    );
}

#[test]
fn changed_address_reconciles_everything_and_exposes_the_previous() {
    let addr = IpAddress::V4(lookup());
    let mut cache = IdCache::new();
    cache.update_record("home.example.com", home_record("r4", addr));
    let mut updater = Updater::new(cache);
    let other = ZoneRecord::new("example.com".to_string(), "www.example.com".to_string());
    let records = vec![home(), other];
    updater.update_v4(&records, PassEvent::Address(lookup()));
    let moved = Ipv4::new(203, 0, 113, 6);
    assert_eq!(
        updater.update_v4(&records, PassEvent::Address(moved)),
        PassAction::Reconcile {
            addr: moved,
            change: UpdateResult::Updated(lookup()),
            records: vec![
                home(),
                ZoneRecord::new("example.com".to_string(), "www.example.com".to_string())
            ],
        }
    );
    assert_eq!(updater.lookup_cache().clone().update_v4(&moved), UpdateResult::Unchanged);
}

#[test]
fn unchanged_address_never_skips_an_unknown_identifier() {
    let addr = IpAddress::V4(lookup());
    let mut cache = IdCache::new();
    cache.update_record("home.example.com", home_record("r4", addr));
    let mut updater = Updater::new(cache);
    let other = ZoneRecord::new("example.com".to_string(), "www.example.com".to_string());
    let records = vec![home(), other];
    updater.update_v4(&records, PassEvent::Address(lookup()));
    // The first cycle failed for `www`; its identifier is still unknown.
    assert_eq!(
        updater.update_v4(&records, PassEvent::Address(lookup())),
        PassAction::Reconcile {
            addr: lookup(),
            change: UpdateResult::Unchanged,
            records: vec![ZoneRecord::new("example.com".to_string(), "www.example.com".to_string())],
        }
    );
    // A known identifier of the other family does not count.
    let mut cache = IdCache::new();
    cache.update_record("home.example.com", home_record("r6", IpAddress::V6(Ipv6(1))));
    let mut updater = Updater::new(cache);
    let records = vec![home()];
    updater.update_v4(&records, PassEvent::Address(lookup()));
    assert_eq!(
        updater.update_v4(&records, PassEvent::Address(lookup())),
        PassAction::Reconcile { addr: lookup(), change: UpdateResult::Unchanged, records: vec![home()] }
    );
    assert_eq!(
        updater.update_v6(&records, PassEvent::Address(Ipv6(1))),
        PassAction::Reconcile { addr: Ipv6(1), change: UpdateResult::Initialized, records: vec![home()] }
    );
    assert_eq!(
        updater.update_v6(&records, PassEvent::Address(Ipv6(1))),
        PassAction::Finish(Idle::Unchanged)
    );
}

#[test]
fn fan_out_over_a_shared_zone_converges_on_one_zone_id() {
    let addr = IpAddress::V4(lookup());
    let names = ["a.example.com", "b.example.com", "c.example.com"];
    let recs: Vec<ZoneRecord> = names
        .iter()
        .map(|n| ZoneRecord::new("example.com".to_string(), n.to_string()))
        .collect();
    // Every order in which the three tasks can take their turns, one step at a time.
    let orders: [[usize; 3]; 6] = [[0, 1, 2], [0, 2, 1], [1, 0, 2], [1, 2, 0], [2, 0, 1], [2, 1, 0]];
    for order in orders {
        let mut provider = Provider::new(&[("z1", "example.com"), ("z2", "example.net")]);
        let mut updater = Updater::new(IdCache::new());
        let mut steps: Vec<Option<(Step, Event)>> =
            (0..3).map(|_| Some((Step::Start, Event::Begin))).collect();
        let mut running = 3;
        let mut rounds = 0;
        while running > 0 {
            rounds += 1;
            assert!(rounds < 16);
            for &i in order.iter() {
                if let Some((step, event)) = steps[i].take() {
                    let (next, action) = updater.update_record(&recs[i], addr, step, event);
                    match provider.perform(action, &updater) {
                        Some(answer) => steps[i] = Some((next, answer)),
                        None => {
                            assert!(matches!(next, Step::Done { outcome: Outcome::Created, .. }));
                            running -= 1;
                        }
                    }
                    let zone = updater.id_cache().get_zone("example.com");
                    assert!(zone == None || zone == Some("z1".to_string()));
                }
            }
        }
        assert_eq!(updater.id_cache().get_zone("example.com"), Some("z1".to_string()));
        assert_eq!(updater.save().zones.len(), 2);
        for name in names {
            assert!(updater.id_cache().get_record(name, &addr).is_some());
        }
        let creates = provider.calls.iter().filter(|c| c.starts_with("create_record")).count();
        assert_eq!(creates, 3);
        // Every call that names a zone names the one the provider listed.
        for call in provider.calls.iter().filter(|c| *c != "list_zones") {
            assert!(call.contains("(z1, "), "{}", call);
        }
        // No task lists the zones twice.
        let listings = provider.calls.iter().filter(|c| *c == "list_zones").count();
        assert!(listings >= 1 && listings <= 3);
        assert_eq!(provider.records.len(), 3);
    }
}

#[test]
fn resolved_record_is_never_created_whatever_the_events() {
    let addr = IpAddress::V4(lookup());
    let events = || -> Vec<Event> {
        vec![
            Event::Begin,
            Event::Zones(Ok(vec![Zone { id: "z1".to_string(), name: "example.com".to_string() }])),
            Event::Zones(Err("e".to_string())),
            Event::Records(Ok(vec![])),
            Event::Records(Err("e".to_string())),
            Event::Updated(Ok(home_record("r4", addr))),
            Event::Created(Ok(home_record("r4", addr))),
            Event::Saved(Ok(())),
            Event::Saved(Err("e".to_string())),
        ]
    };
    let steps = || -> Vec<Step> {
        vec![
            Step::Start,
            Step::ListingZones,
            Step::SavingZones,
            Step::ZoneResolved { zone_id: "z1".to_string() },
            Step::SavingRecords { zone_id: "z1".to_string() },
            Step::RecordIdResolved { zone_id: "z1".to_string(), record_id: "r4".to_string() },
            Step::RecordAbsent { zone_id: "z1".to_string() },
            Step::Created { record: home_record("r4", addr) },
            Step::Done { record: home_record("r4", addr), outcome: Outcome::Updated },
            Step::Failed { failure: Failure::ZoneNotFound },
        ]
    };
    for (s, _) in steps().iter().enumerate() {
        for (e, _) in events().iter().enumerate() {
            let mut cache = IdCache::new();
            cache.save_zone("example.com".to_string(), "z1".to_string());
            cache.update_record("home.example.com", home_record("r4", addr));
            let mut updater = Updater::new(cache);
            let step = steps().remove(s);
            let event = events().remove(e);
            let (_, action) = updater.update_record(&home(), addr, step, event);
            assert!(!matches!(action, Action::CreateRecord { .. }));
            assert!(updater.id_cache().get_record("home.example.com", &addr).is_some());
        }
    }
}

#[test]
fn missing_zone_of_one_record_leaves_the_other_alone() {
    let addr = IpAddress::V4(lookup());
    let lost = ZoneRecord::new("missing.test".to_string(), "a.missing.test".to_string());
    let recs = [lost, home()];
    // The two tasks take turns in every pattern of up to eight turns each.
    for pattern in 0u32..256 {
        let mut provider = Provider::new(&[("z1", "example.com")]);
        let mut updater = Updater::new(IdCache::new());
        let mut steps: Vec<Option<(Step, Event)>> =
            (0..2).map(|_| Some((Step::Start, Event::Begin))).collect();
        let mut ended: Vec<Option<Step>> = vec![None, None];
        let mut turn = 0;
        while ended.iter().any(|e| e.is_none()) {
            assert!(turn < 64);
            let preferred = ((pattern >> (turn % 8)) & 1) as usize;
            let i = if ended[preferred].is_none() { preferred } else { 1 - preferred };
            turn += 1;
            let (step, event) = steps[i].take().unwrap();
            let (next, action) = updater.update_record(&recs[i], addr, step, event);
            match provider.perform(action, &updater) {
                Some(answer) => steps[i] = Some((next, answer)),
                None => ended[i] = Some(next),
            }
        }
        assert_eq!(ended[0], Some(Step::Failed { failure: Failure::ZoneNotFound }));
        assert_eq!(
            ended[1],
            Some(Step::Done { record: home_record("new1", addr), outcome: Outcome::Created })
        );
        let changes: Vec<&String> = provider
            .calls
            .iter()
            .filter(|c| c.starts_with("create_record") || c.starts_with("update_record"))
            .collect();
        assert_eq!(changes, vec!["create_record(z1, home.example.com, 203.0.113.5)"]);
        assert!(!provider.calls.iter().any(|c| c.contains("missing.test")));
        assert_eq!(updater.id_cache().get_record("home.example.com", &addr), Some("new1".to_string()));
        assert_eq!(updater.id_cache().get_record("a.missing.test", &addr), None);
        assert_eq!(updater.id_cache().get_zone("missing.test"), None);
    }
}
