use std::time::Duration;

use cf_ddns::config::raw::{Interval, RawConfig, RawRecordConfig, RawZoneConfig};
use cf_ddns::config::{Config, LookupConfig, Records, ZoneRecord};
use cf_ddns::updater::target;

fn record(zone: &str, name: &str) -> ZoneRecord {
    ZoneRecord::new(zone.to_string(), name.to_string())
}

fn raw(zones: Vec<(String, RawZoneConfig)>) -> RawConfig {
    RawConfig {
        token: "test".to_string(),
        lookup: LookupConfig::default(),
        interval: Interval::default(),
        zones,
    }
}

fn example_zones() -> Vec<(String, RawZoneConfig)> {
    vec![
        (
            "example.com".to_string(),
            RawZoneConfig(vec![
                ("www.example.com".to_string(), RawRecordConfig::default()),
                ("v4.example.com".to_string(), RawRecordConfig { v4: true, v6: false }),
                ("v6.example.com".to_string(), RawRecordConfig { v4: false, v6: true }),
                ("both.example.com".to_string(), RawRecordConfig { v4: true, v6: true }),
            ]),
        ),
        (
            "example.net".to_string(),
            RawZoneConfig(vec![(
                "home.example.net".to_string(),
                RawRecordConfig { v4: true, v6: false },
            )]),
        ),
    ]
}

#[test]
fn interval_defaults_to_five_minutes() {
    assert_eq!(Interval::default(), Interval(300));
    assert_eq!(Interval::default().duration(), Duration::from_secs(300));
    assert_eq!(Interval(60).duration(), Duration::from_secs(60));
    assert_eq!(Interval(0).duration(), Duration::ZERO);
}

#[test]
fn lookup_defaults_to_icanhazip() {
    assert_eq!(LookupConfig::default(), LookupConfig::ICanHazIp);
}

#[test]
fn record_flags_default_to_off() {
    assert_eq!(RawRecordConfig::default(), RawRecordConfig { v4: false, v6: false });
}

#[test]
fn minimal_raw_config_has_no_records() {
    let config = Config::from(raw(vec![]));
    assert_eq!(config.token, "test");
    assert_eq!(config.lookup, LookupConfig::ICanHazIp);
    assert_eq!(config.interval, Duration::from_secs(300));
    assert_eq!(config.records, Records { v4: vec![], v6: vec![] });
}

#[test]
fn overridden_interval_is_kept() {
    let mut parsed = raw(vec![]);
    parsed.interval = Interval(60);
    assert_eq!(Config::from(parsed).interval, Duration::from_secs(60));
}

#[test]
fn records_are_split_by_family_in_order() {
    let config = Config::from(raw(example_zones()));
    assert_eq!(
        config.records.v4,
        vec![
            record("example.com", "v4.example.com"),
            record("example.com", "both.example.com"),
            record("example.net", "home.example.net"),
        ]
    );
    assert_eq!(
        config.records.v6,
        vec![record("example.com", "v6.example.com"), record("example.com", "both.example.com")]
    );
}

#[test]
fn load_resolves_a_parsed_file() {
    let loaded: Result<Config, String> = Config::load(Ok(raw(example_zones())));
    assert_eq!(loaded, Ok(Config::from(raw(example_zones()))));
}

#[test]
fn load_hands_an_error_on() {
    let loaded: Result<Config, String> = Config::load(Err("unable to open config file".to_string()));
    assert_eq!(loaded, Err("unable to open config file".to_string()));
}

#[test]
fn filter_name_keeps_matching_records_per_family() {
    let records = Config::from(raw(example_zones())).records;
    assert_eq!(
        records.filter_name("both.example.com"),
        Records {
            v4: vec![record("example.com", "both.example.com")],
            v6: vec![record("example.com", "both.example.com")],
        }
    );
    assert_eq!(
        records.filter_name("v4.example.com"),
        Records { v4: vec![record("example.com", "v4.example.com")], v6: vec![] }
    );
}

#[test]
fn filter_name_without_match_is_empty_not_an_error() {
    let records = Config::from(raw(example_zones())).records;
    assert_eq!(records.filter_name("nowhere.example.com"), Records { v4: vec![], v6: vec![] });
    assert_eq!(records.filter_name("www.example.com"), Records { v4: vec![], v6: vec![] });
    assert_eq!(records.filter_name(""), Records::default());
}

#[test]
fn filter_name_keeps_duplicates() {
    let records = Records {
        v4: vec![record("a.test", "x.a.test"), record("b.test", "x.a.test"), record("a.test", "y")],
        v6: vec![],
    };
    assert_eq!(
        records.filter_name("x.a.test").v4,
        vec![record("a.test", "x.a.test"), record("b.test", "x.a.test")]
    );
}

#[test]
fn target_is_everything_without_a_name() {
    let records = Config::from(raw(example_zones())).records;
    assert_eq!(target(&records, None), records);
    assert_eq!(target(&records, Some("v6.example.com")), records.filter_name("v6.example.com"));
    assert_eq!(target(&records, Some("nope")), Records::default());
}

#[test]
fn repeated_name_is_resolved_as_it_stands() {
    let zones = vec![(
        "example.com".to_string(),
        RawZoneConfig(vec![
            ("home.example.com".to_string(), RawRecordConfig { v4: true, v6: false }),
            ("home.example.com".to_string(), RawRecordConfig { v4: true, v6: true }),
        ]),
    )];
    let config = Config::from(raw(zones));
    assert_eq!(
        config.records.v4,
        vec![record("example.com", "home.example.com"), record("example.com", "home.example.com")]
    );
    assert_eq!(config.records.v6, vec![record("example.com", "home.example.com")]);
}

#[test]
fn distinct_names_give_each_record_once() {
    let records = Config::from(raw(example_zones())).records;
    for list in [&records.v4, &records.v6] {
        for (i, a) in list.iter().enumerate() {
            for b in list.iter().skip(i + 1) {
                assert_ne!(a, b);
            }
        }
    }
}
