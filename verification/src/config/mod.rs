//! What the client is configured to do.

use std::time::Duration;
use vstd::prelude::*;
use crate::config::raw::{resolved, RawConfig};

pub mod raw;

verus! {

/// The configuration the client runs with.
#[derive(Debug, PartialEq, Eq)]
pub struct Config {
    /// API token for the provider.
    pub token: String,
    /// Which service tells the public address.
    pub lookup: LookupConfig,
    /// Time between two reconciliation cycles of the service.
    pub interval: Duration,
    /// The records to keep up to date.
    pub records: Records,
}

/// The services that can tell the public address.
#[derive(Clone, Copy, Debug, PartialEq, Eq, Structural)]
pub enum LookupConfig {
    ICanHazIp,
}

impl Default for LookupConfig {
    fn default() -> (lookup: LookupConfig)
        ensures
            lookup == LookupConfig::ICanHazIp,
    {
        LookupConfig::ICanHazIp
    }
}

/// The records to keep up to date, by address family. A record may stand in
/// either list, in both or in none.
#[derive(Debug, PartialEq, Eq)]
pub struct Records {
    pub v4: Vec<ZoneRecord>,
    pub v6: Vec<ZoneRecord>,
}

/// One configured record: its zone and its fully qualified name.
#[derive(Debug, PartialEq, Eq)]
pub struct ZoneRecord {
    pub zone: String,
    pub name: String,
}

/// A configured record as character sequences.
pub struct ZoneRecordView {
    pub zone: Seq<char>,
    pub name: Seq<char>,
}

/// The configured records as sequences.
pub struct RecordsView {
    pub v4: Seq<ZoneRecordView>,
    pub v6: Seq<ZoneRecordView>,
}

/// A configuration as character sequences.
pub struct ConfigView {
    pub token: Seq<char>,
    pub lookup: LookupConfig,
    pub interval: Duration,
    pub records: RecordsView,
}

impl View for ZoneRecord {
    type V = ZoneRecordView;

    open spec fn view(&self) -> ZoneRecordView {
        ZoneRecordView { zone: self.zone@, name: self.name@ }
    }
}

impl DeepView for ZoneRecord {
    type V = ZoneRecordView;

    open spec fn deep_view(&self) -> ZoneRecordView {
        self@
    }
}

impl View for Records {
    type V = RecordsView;

    open spec fn view(&self) -> RecordsView {
        RecordsView { v4: self.v4.deep_view(), v6: self.v6.deep_view() }
    }
}

impl View for Config {
    type V = ConfigView;

    open spec fn view(&self) -> ConfigView {
        ConfigView {
            token: self.token@,
            lookup: self.lookup,
            interval: self.interval,
            records: self.records@,
        }
    }
}

impl Config {
    /// Finishes loading: `raw` is what reading and parsing the configuration
    /// file gave. A parsed file becomes the configuration it stands for; an
    /// error is handed on as it is.
    pub fn load<E>(raw: Result<RawConfig, E>) -> (loaded: Result<Config, E>)
        ensures
            match raw {
                Ok(parsed) => loaded matches Ok(config) && config@ == resolved(parsed@),
                Err(error) => loaded == Err::<Config, E>(error),
            },
    {
        match raw {
            Ok(parsed) => Ok(Config::from(parsed)),
            Err(error) => Err(error),
        }
    }
}

impl ZoneRecord {
    /// The record `name` of the zone `zone`.
    pub fn new(zone: String, name: String) -> (record: ZoneRecord)
        ensures
            record@ == (ZoneRecordView { zone: zone@, name: name@ }),
    {
        ZoneRecord { zone, name }
    }
}

impl Clone for ZoneRecord {
    fn clone(&self) -> (res: ZoneRecord)
        ensures
            res@ == self@,
    {
        ZoneRecord { zone: self.zone.clone(), name: self.name.clone() }
    }
}

impl Default for Records {
    fn default() -> (records: Records)
        ensures
            records@.v4.len() == 0,
            records@.v6.len() == 0,
    {
        Records { v4: Vec::new(), v6: Vec::new() }
    }
}

/// The records of `records` that are named `name`, in their order.
pub open spec fn named(records: Seq<ZoneRecordView>, name: Seq<char>) -> Seq<ZoneRecordView> {
    records.filter(|record: ZoneRecordView| record.name == name)
}

/// Keeps the records named `name`.
fn filter_records(records: &Vec<ZoneRecord>, name: &str) -> (kept: Vec<ZoneRecord>)
    ensures
        kept.deep_view() == named(records.deep_view(), name@),
{
    let mut kept: Vec<ZoneRecord> = Vec::new();
    let wanted_name = name.to_owned();
    let ghost all = records.deep_view();
    let ghost wanted = |record: ZoneRecordView| record.name == name@;
    let mut i: usize = 0;
    proof {
        reveal(Seq::filter);
        assert(all.take(0).len() == 0);
    }
    while i < records.len()
        invariant
            i <= records.len(),
            all == records.deep_view(),
            wanted_name@ == name@,
            wanted == (|record: ZoneRecordView| record.name == name@),
            kept.deep_view() == all.take(i as int).filter(wanted),
        decreases records.len() - i,
    {
        let record = &records[i];
        let ghost before = kept.deep_view();
        if record.name == wanted_name {
            kept.push(record.clone());
            assert(kept.deep_view() =~= before.push(record@));
        }
        proof {
            reveal(Seq::filter);
            assert(all.take(i + 1).drop_last() =~= all.take(i as int));
            assert(all.take(i + 1).last() == record@);
        }
        i += 1;
    }
    proof {
        assert(all.take(i as int) =~= all);
    }
    kept
}

impl Records {
    /// The configured records that are named `name`, family by family. A
    /// name that matches nothing gives two empty lists.
    pub fn filter_name(&self, name: &str) -> (filtered: Records)
        ensures
            filtered@.v4 == named(self@.v4, name@),
            filtered@.v6 == named(self@.v6, name@),
    {
        Records { v4: filter_records(&self.v4, name), v6: filter_records(&self.v6, name) }
    }
}

} // verus!
