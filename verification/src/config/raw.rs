//! The configuration as it is written in the file, before it is split by
//! address family.

use std::time::Duration;
use vstd::prelude::*;
use crate::addr::Family;
use crate::config::{Config, ConfigView, LookupConfig, Records, RecordsView, ZoneRecord, ZoneRecordView};

verus! {

/// Raw configuration parsed from a file. Zones and records come in the order
/// in which the parser hands them over: the file holds them as maps by name,
/// and the order in which a map is walked is not the library's to know. A
/// list that was read from such a map names nothing twice (see
/// [`RawConfigView::distinct`]); one that does is resolved as it stands.
#[derive(Debug, PartialEq, Eq)]
pub struct RawConfig {
    pub token: String,
    pub lookup: LookupConfig,
    pub interval: Interval,
    pub zones: Vec<(String, RawZoneConfig)>,
}

/// Seconds between two reconciliation cycles of the service.
#[derive(Clone, Copy, Debug, PartialEq, Eq, Structural)]
pub struct Interval(pub u64);

/// The records of one zone, by name.
#[derive(Debug, PartialEq, Eq)]
pub struct RawZoneConfig(pub Vec<(String, RawRecordConfig)>);

/// The families one record is kept up to date for.
#[derive(Clone, Copy, Debug, PartialEq, Eq, Structural)]
pub struct RawRecordConfig {
    pub v4: bool,
    pub v6: bool,
}

/// Five minutes.
pub const DEFAULT_INTERVAL_SECS: u64 = 300;

impl Default for Interval {
    fn default() -> (interval: Interval)
        ensures
            interval.0 == DEFAULT_INTERVAL_SECS,
    {
        Interval(DEFAULT_INTERVAL_SECS)
    }
}

impl Default for RawRecordConfig {
    fn default() -> (record: RawRecordConfig)
        ensures
            !record.v4,
            !record.v6,
    {
        RawRecordConfig { v4: false, v6: false }
    }
}

/// The span of `secs` whole seconds, as `Duration::from_secs` builds it.
pub uninterp spec fn whole_seconds(secs: u64) -> Duration;

/// `Duration::from_secs` of the standard library. The contract only gives
/// the result its name: a span of `secs` seconds and no fraction.
#[verifier::external_body]
fn duration_from_secs(secs: u64) -> (d: Duration)
    ensures
        d == whole_seconds(secs),
{
    Duration::from_secs(secs)
}

impl Interval {
    /// The interval as a time span.
    pub fn duration(&self) -> (d: Duration)
        ensures
            d == whole_seconds(self.0),
    {
        duration_from_secs(self.0)
    }
}

impl RawRecordConfig {
    /// Whether the record is kept up to date for `family`.
    pub open spec fn enabled(self, family: Family) -> bool {
        match family {
            Family::V4 => self.v4,
            Family::V6 => self.v6,
        }
    }
}

/// A raw zone as character sequences: its name and its records.
pub type RawZoneView = (Seq<char>, Seq<(Seq<char>, RawRecordConfig)>);

/// A raw configuration as character sequences.
pub struct RawConfigView {
    pub token: Seq<char>,
    pub lookup: LookupConfig,
    pub interval: Interval,
    pub zones: Seq<RawZoneView>,
}

impl View for RawZoneConfig {
    type V = Seq<(Seq<char>, RawRecordConfig)>;

    open spec fn view(&self) -> Self::V {
        Seq::new(self.0@.len(), |i: int| (self.0@[i].0@, self.0@[i].1))
    }
}

impl View for RawConfig {
    type V = RawConfigView;

    open spec fn view(&self) -> RawConfigView {
        RawConfigView {
            token: self.token@,
            lookup: self.lookup,
            interval: self.interval,
            zones: Seq::new(self.zones@.len(), |i: int| (self.zones@[i].0@, self.zones@[i].1@)),
        }
    }
}

/// The records of one zone that are enabled for `family`, in their order.
pub open spec fn zone_selection(
    zone: Seq<char>,
    records: Seq<(Seq<char>, RawRecordConfig)>,
    family: Family,
) -> Seq<ZoneRecordView>
    decreases records.len(),
{
    if records.len() == 0 {
        Seq::empty()
    } else {
        let rest = zone_selection(zone, records.drop_last(), family);
        if records.last().1.enabled(family) {
            rest.push(ZoneRecordView { zone, name: records.last().0 })
        } else {
            rest
        }
    }
}

/// The records of all zones that are enabled for `family`: zone after zone,
/// and within a zone record after record.
pub open spec fn selection(zones: Seq<RawZoneView>, family: Family) -> Seq<ZoneRecordView>
    decreases zones.len(),
{
    if zones.len() == 0 {
        Seq::empty()
    } else {
        selection(zones.drop_last(), family) + zone_selection(
            zones.last().0,
            zones.last().1,
            family,
        )
    }
}

/// No two entries of the list have the same name.
pub open spec fn distinct_names<V>(entries: Seq<(Seq<char>, V)>) -> bool {
    forall|i: int, j: int|
        0 <= i < j < entries.len() ==> (#[trigger] entries[i]).0 != (#[trigger] entries[j]).0
}

impl RawConfigView {
    /// No zone is named twice, and within a zone no record is named twice.
    /// A configuration file holds its zones and their records as maps by
    /// name, so what is read from one is distinct in this sense.
    pub open spec fn distinct(self) -> bool {
        &&& distinct_names(self.zones)
        &&& forall|z: int| 0 <= z < self.zones.len() ==> distinct_names((#[trigger] self.zones[z]).1)
    }
}

/// What is selected from a zone lies in that zone and bears the name of one
/// of its records; and if no record of the zone is named twice, no record is
/// selected twice.
pub proof fn lemma_zone_selection(
    zone: Seq<char>,
    records: Seq<(Seq<char>, RawRecordConfig)>,
    family: Family,
)
    ensures
        forall|k: int|
            0 <= k < zone_selection(zone, records, family).len() ==> {
                let chosen = #[trigger] zone_selection(zone, records, family)[k];
                &&& chosen.zone == zone
                &&& exists|i: int|
                    0 <= i < records.len() && (#[trigger] records[i]).0 == chosen.name
                        && records[i].1.enabled(family)
            },
        distinct_names(records) ==> zone_selection(zone, records, family).no_duplicates(),
    decreases records.len(),
{
    if records.len() > 0 {
        let front = records.drop_last();
        let last = records.last();
        let rest = zone_selection(zone, front, family);
        let all = zone_selection(zone, records, family);
        lemma_zone_selection(zone, front, family);
        assert forall|k: int| 0 <= k < all.len() implies {
            let chosen = #[trigger] all[k];
            &&& chosen.zone == zone
            &&& exists|i: int|
                0 <= i < records.len() && (#[trigger] records[i]).0 == chosen.name
                    && records[i].1.enabled(family)
        } by {
            if k < rest.len() {
                assert(all[k] == rest[k]);
                let i = choose|i: int|
                    0 <= i < front.len() && (#[trigger] front[i]).0 == rest[k].name
                        && front[i].1.enabled(family);
                assert(records[i] == front[i]);
            } else {
                assert(records[records.len() - 1] == last);
            }
        }
        if distinct_names(records) {
            assert forall|i: int, j: int| 0 <= i < j < front.len() implies (#[trigger] front[i]).0
                != (#[trigger] front[j]).0 by {
                assert(front[i] == records[i]);
                assert(front[j] == records[j]);
            }
            assert forall|a: int, b: int| 0 <= a < all.len() && 0 <= b < all.len() && a
                != b implies all[a] != all[b] by {
                if a < rest.len() && b < rest.len() {
                    assert(all[a] == rest[a]);
                    assert(all[b] == rest[b]);
                } else {
                    let inner = if a < rest.len() {
                        a
                    } else {
                        b
                    };
                    assert(all[inner] == rest[inner]);
                    let i = choose|i: int|
                        0 <= i < front.len() && (#[trigger] front[i]).0 == rest[inner].name
                            && front[i].1.enabled(family);
                    assert(records[i] == front[i]);
                    assert(records[records.len() - 1] == last);
                    assert(records[i].0 != records[records.len() - 1].0);
                }
            }
        }
    }
}

/// What is selected from a configuration lies in one of its zones; and if
/// no zone and, within a zone, no record is named twice, each configured
/// record is selected at most once for a family.
pub proof fn lemma_selection(zones: Seq<RawZoneView>, family: Family)
    ensures
        forall|k: int|
            0 <= k < selection(zones, family).len() ==> exists|z: int|
                0 <= z < zones.len() && (#[trigger] zones[z]).0 == (#[trigger] selection(
                    zones,
                    family,
                )[k]).zone,
        (distinct_names(zones) && forall|z: int|
            0 <= z < zones.len() ==> distinct_names((#[trigger] zones[z]).1)) ==> selection(
            zones,
            family,
        ).no_duplicates(),
    decreases zones.len(),
{
    if zones.len() > 0 {
        let front = zones.drop_last();
        let last = zones.last();
        let head = selection(front, family);
        let tail = zone_selection(last.0, last.1, family);
        let all = selection(zones, family);
        lemma_selection(front, family);
        lemma_zone_selection(last.0, last.1, family);
        assert(zones[zones.len() - 1] == last);
        assert forall|k: int| 0 <= k < all.len() implies exists|z: int|
            0 <= z < zones.len() && (#[trigger] zones[z]).0 == (#[trigger] all[k]).zone by {
            if k < head.len() {
                assert(all[k] == head[k]);
                let z = choose|z: int|
                    0 <= z < front.len() && (#[trigger] front[z]).0 == head[k].zone;
                assert(zones[z] == front[z]);
            } else {
                assert(all[k] == tail[k - head.len()]);
            }
        }
        if distinct_names(zones) && forall|z: int|
            0 <= z < zones.len() ==> distinct_names((#[trigger] zones[z]).1) {
            assert forall|i: int, j: int| 0 <= i < j < front.len() implies (#[trigger] front[i]).0
                != (#[trigger] front[j]).0 by {
                assert(front[i] == zones[i]);
                assert(front[j] == zones[j]);
            }
            assert forall|z: int| 0 <= z < front.len() implies distinct_names(
                (#[trigger] front[z]).1,
            ) by {
                assert(front[z] == zones[z]);
            }
            assert forall|a: int, b: int| 0 <= a < all.len() && 0 <= b < all.len() && a
                != b implies all[a] != all[b] by {
                if a < head.len() && b < head.len() {
                    assert(all[a] == head[a]);
                    assert(all[b] == head[b]);
                } else if a >= head.len() && b >= head.len() {
                    assert(all[a] == tail[a - head.len()]);
                    assert(all[b] == tail[b - head.len()]);
                } else {
                    let inner = if a < head.len() {
                        a
                    } else {
                        b
                    };
                    let outer = if a < head.len() {
                        b
                    } else {
                        a
                    };
                    assert(all[inner] == head[inner]);
                    assert(all[outer] == tail[outer - head.len()]);
                    let z = choose|z: int|
                        0 <= z < front.len() && (#[trigger] front[z]).0 == head[inner].zone;
                    assert(zones[z] == front[z]);
                    assert(zones[z].0 != zones[zones.len() - 1].0);
                }
            }
        }
    }
}

/// A configuration in which no zone and, within a zone, no record is named
/// twice resolves to lists that hold each record at most once per family.
pub proof fn lemma_distinct_names_resolve_once(raw: RawConfigView)
    requires
        raw.distinct(),
    ensures
        resolved(raw).records.v4.no_duplicates(),
        resolved(raw).records.v6.no_duplicates(),
{
    lemma_selection(raw.zones, Family::V4);
    lemma_selection(raw.zones, Family::V6);
}

/// The configuration that `raw` stands for.
pub open spec fn resolved(raw: RawConfigView) -> ConfigView {
    ConfigView {
        token: raw.token,
        lookup: raw.lookup,
        interval: whole_seconds(raw.interval.0),
        records: RecordsView {
            v4: selection(raw.zones, Family::V4),
            v6: selection(raw.zones, Family::V6),
        },
    }
}

impl From<RawConfig> for Config {
    /// Splits the records by family. A record enabled for both families is
    /// listed under both; one enabled for neither is dropped. Where no name
    /// occurs twice in `value`, no record occurs twice in a list.
    fn from(value: RawConfig) -> (config: Config)
        ensures
            config@ == resolved(value@),
            value@.distinct() ==> config@.records.v4.no_duplicates()
                && config@.records.v6.no_duplicates(),
    {
        proof {
            if value@.distinct() {
                lemma_distinct_names_resolve_once(value@);
            }
        }
        let mut records = Records::default();
        let ghost zones = value@.zones;
        let mut i: usize = 0;
        while i < value.zones.len()
            invariant
                i <= value.zones.len(),
                zones == value@.zones,
                records@.v4 == selection(zones.take(i as int), Family::V4),
                records@.v6 == selection(zones.take(i as int), Family::V6),
            decreases value.zones.len() - i,
        {
            let zone = &value.zones[i].0;
            let zone_records = &value.zones[i].1;
            let ghost before = records@;
            let ghost recs = zone_records@;
            let mut j: usize = 0;
            while j < zone_records.0.len()
                invariant
                    j <= zone_records.0.len(),
                    recs == zone_records@,
                    records@.v4 == before.v4 + zone_selection(
                        zone@,
                        recs.take(j as int),
                        Family::V4,
                    ),
                    records@.v6 == before.v6 + zone_selection(
                        zone@,
                        recs.take(j as int),
                        Family::V6,
                    ),
                decreases zone_records.0.len() - j,
            {
                let name = &zone_records.0[j].0;
                let record = zone_records.0[j].1;
                let ghost entry = ZoneRecordView { zone: zone@, name: name@ };
                let ghost v4_before = records@.v4;
                let ghost v6_before = records@.v6;
                if record.v4 {
                    records.v4.push(ZoneRecord { zone: zone.clone(), name: name.clone() });
                    assert(records@.v4 =~= v4_before.push(entry));
                }
                if record.v6 {
                    records.v6.push(ZoneRecord { zone: zone.clone(), name: name.clone() });
                    assert(records@.v6 =~= v6_before.push(entry));
                }
                proof {
                    let upto = recs.take(j + 1);
                    assert(upto.drop_last() =~= recs.take(j as int));
                    assert(upto.last() == (name@, record));
                    let v4_rest = zone_selection(zone@, recs.take(j as int), Family::V4);
                    let v6_rest = zone_selection(zone@, recs.take(j as int), Family::V6);
                    assert((before.v4 + v4_rest).push(entry) =~= before.v4 + v4_rest.push(entry));
                    assert((before.v6 + v6_rest).push(entry) =~= before.v6 + v6_rest.push(entry));
                }
                j += 1;
            }
            proof {
                assert(recs.take(j as int) =~= recs);
                assert(zones.take(i + 1).drop_last() =~= zones.take(i as int));
                assert(zones.take(i + 1).last() == (zone@, recs));
            }
            i += 1;
        }
        proof {
            assert(zones.take(i as int) =~= zones);
        }
        Config {
            token: value.token,
            lookup: value.lookup,
            interval: value.interval.duration(),
            records,
        }
    }
}

/// The conversion is stated over views, by the `ensures` of `from` itself: a
/// configuration holds strings and vectors, which a specification knows by
/// their views only, so no `from_spec` can name the value that comes out.
impl vstd::std_specs::convert::FromSpecImpl<RawConfig> for Config {
    open spec fn obeys_from_spec() -> bool {
        false
    }

    open spec fn from_spec(raw: RawConfig) -> Config {
        arbitrary()
    }
}

} // verus!
