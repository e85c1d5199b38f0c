//! Reconciliation of configured records against the current public address.
//!
//! A cycle runs one pass per address family. A pass looks the public address
//! up, compares it with the one seen last, and hands out the records to
//! reconcile; each of them is then brought up to date by a task of its own
//! (see [`task`]). The updater owns the two caches the passes and tasks share.
//! It decides; the host program looks up, calls the provider and writes the
//! cache file.

use vstd::prelude::*;
use crate::addr::{Family, IpAddress, Ipv4, Ipv6};
use crate::config::{named, Records, ZoneRecord, ZoneRecordView};
use crate::updater::id_cache::{CacheSnapshot, IdCache, IdCacheView};
use crate::updater::lookup_cache::{observe, LookupCache, UpdateResult};
use crate::updater::task::{advance, Action, Event, Step, Transition};

pub mod fan_out;
pub mod id_cache;
pub mod lookup_cache;
pub mod task;

verus! {

/// What the host program reports to a pass: the start signal, or the outcome
/// of the address lookup the pass asked for.
#[derive(Debug, PartialEq, Eq)]
pub enum PassEvent<T> {
    /// The pass may start.
    Begin,
    /// The lookup gave this address.
    Address(T),
    /// The lookup failed.
    LookupFailed,
}

/// Why a pass ended without reconciling anything.
#[derive(Clone, Copy, Debug, PartialEq, Eq, Structural)]
pub enum Idle {
    /// No record is configured for the family.
    NothingConfigured,
    /// The public address could not be found out; the next cycle tries again.
    LookupFailed,
    /// The address is the one seen last and nothing is left to bring in line.
    Unchanged,
}

/// What a pass asks the host program to do next.
#[derive(Debug, PartialEq, Eq)]
pub enum PassAction<T> {
    /// Look the public address up and report it.
    Lookup,
    /// Run one task for each of `records`, with the address `addr`. `change`
    /// says how `addr` relates to the address seen last.
    Reconcile { addr: T, change: UpdateResult<T>, records: Vec<ZoneRecord> },
    /// Nothing: the pass is over.
    Finish(Idle),
}

/// A pass action over character sequences.
pub enum PassActionView<T> {
    Lookup,
    Reconcile { addr: T, change: UpdateResult<T>, records: Seq<ZoneRecordView> },
    Finish(Idle),
}

impl<T> View for PassAction<T> {
    type V = PassActionView<T>;

    open spec fn view(&self) -> PassActionView<T> {
        match self {
            PassAction::Lookup => PassActionView::Lookup,
            PassAction::Reconcile { addr, change, records } => PassActionView::Reconcile {
                addr: *addr,
                change: *change,
                records: records.deep_view(),
            },
            PassAction::Finish(idle) => PassActionView::Finish(*idle),
        }
    }
}

/// The records of `records` whose identifier for `family` the cache does not
/// hold, in their order.
pub open spec fn unresolved(cache: IdCacheView, records: Seq<ZoneRecordView>, family: Family) -> Seq<
    ZoneRecordView,
> {
    records.filter(|record: ZoneRecordView| cache.record(record.name, family) is None)
}

/// The records a pass reconciles once it knows how the address changed. An
/// address that changed, or was seen for the first time, concerns every
/// record. An unchanged address concerns the records whose identifier is
/// unknown, and the others only if the pass may not stop short.
pub open spec fn concerned<T>(
    short_circuit: bool,
    cache: IdCacheView,
    records: Seq<ZoneRecordView>,
    family: Family,
    change: UpdateResult<T>,
) -> Seq<ZoneRecordView> {
    if change is Unchanged && short_circuit {
        unresolved(cache, records, family)
    } else {
        records
    }
}

/// What a pass over `records` answers to `event`, where `seen` is the address
/// of the family seen last.
pub open spec fn pass<T>(
    short_circuit: bool,
    cache: IdCacheView,
    records: Seq<ZoneRecordView>,
    family: Family,
    seen: Option<T>,
    event: PassEvent<T>,
) -> PassActionView<T> {
    if records.len() == 0 {
        PassActionView::Finish(Idle::NothingConfigured)
    } else {
        match event {
            PassEvent::Begin => PassActionView::Lookup,
            PassEvent::LookupFailed => PassActionView::Finish(Idle::LookupFailed),
            PassEvent::Address(addr) => {
                let change = observe(seen, addr);
                let due = concerned(short_circuit, cache, records, family, change);
                if due.len() == 0 {
                    PassActionView::Finish(Idle::Unchanged)
                } else {
                    PassActionView::Reconcile { addr, change, records: due }
                }
            },
        }
    }
}

/// The address held as seen last after a pass over `records` answered
/// `event`: the address looked up, if the pass asked for one and got it.
pub open spec fn seen_after<T>(records: Seq<ZoneRecordView>, seen: Option<T>, event: PassEvent<T>) -> Option<
    T,
> {
    match event {
        PassEvent::Address(addr) if records.len() > 0 => Some(addr),
        _ => seen,
    }
}

/// The caches of a running client and the one policy it has.
pub struct Updater {
    id_cache: IdCache,
    lookup_cache: LookupCache,
    short_circuit: bool,
}

/// An updater as plain values.
pub struct UpdaterView {
    /// The identifiers known.
    pub ids: IdCacheView,
    /// The addresses seen last.
    pub seen: LookupCache,
    /// Whether a pass may stop short when the address has not changed.
    pub short_circuit: bool,
}

impl View for Updater {
    type V = UpdaterView;

    closed spec fn view(&self) -> UpdaterView {
        UpdaterView {
            ids: self.id_cache@,
            seen: self.lookup_cache,
            short_circuit: self.short_circuit,
        }
    }
}

/// Clones the records of `records` whose identifier for the family of `addr`
/// is not in `cache`.
fn unresolved_records(cache: &IdCache, records: &Vec<ZoneRecord>, addr: IpAddress) -> (kept: Vec<
    ZoneRecord,
>)
    ensures
        kept.deep_view() == unresolved(cache@, records.deep_view(), addr.family_of()),
{
    let mut kept: Vec<ZoneRecord> = Vec::new();
    let ghost all = records.deep_view();
    let ghost family = addr.family_of();
    let ghost view = cache@;
    let ghost wanted = |record: ZoneRecordView| view.record(record.name, family) is None;
    let mut i: usize = 0;
    proof {
        reveal(Seq::filter);
        assert(all.take(0).len() == 0);
    }
    while i < records.len()
        invariant
            i <= records.len(),
            all == records.deep_view(),
            family == addr.family_of(),
            view == cache@,
            wanted == (|record: ZoneRecordView| view.record(record.name, family) is None),
            kept.deep_view() == all.take(i as int).filter(wanted),
        decreases records.len() - i,
    {
        let record = &records[i];
        let ghost before = kept.deep_view();
        if cache.get_record(record.name.as_str(), &addr).is_none() {
            kept.push(record.clone());
            assert(kept.deep_view() =~= before.push(record@));
        }
        proof {
            reveal(Seq::filter);
            assert(all.take(i + 1).drop_last() =~= all.take(i as int));
            assert(all.take(i + 1).last() == record@);
        }
        i += 1;
    }
    proof {
        assert(all.take(i as int) =~= all);
    }
    kept
}

/// Clones all records of `records`.
fn all_records(records: &Vec<ZoneRecord>) -> (copy: Vec<ZoneRecord>)
    ensures
        copy.deep_view() == records.deep_view(),
{
    let mut copy: Vec<ZoneRecord> = Vec::new();
    let mut i: usize = 0;
    while i < records.len()
        invariant
            i <= records.len(),
            copy.deep_view() == records.deep_view().take(i as int),
        decreases records.len() - i,
    {
        let ghost before = copy.deep_view();
        copy.push(records[i].clone());
        assert(copy.deep_view() =~= before.push(records[i as int]@));
        assert(records.deep_view().take(i + 1) =~= before.push(records[i as int]@));
        i += 1;
    }
    assert(records.deep_view().take(i as int) =~= records.deep_view());
    copy
}

/// The records a cycle works on: all that are configured, or those named
/// `name`. A name that matches nothing gives an empty set.
pub fn target(records: &Records, name: Option<&str>) -> (chosen: Records)
    ensures
        match name {
            Some(name) => chosen@.v4 == named(records@.v4, name@) && chosen@.v6 == named(
                records@.v6,
                name@,
            ),
            None => chosen@ == records@,
        },
{
    match name {
        Some(name) => records.filter_name(name),
        None => Records { v4: all_records(&records.v4), v6: all_records(&records.v6) },
    }
}

impl Updater {
    /// The identifier cache is well formed.
    pub closed spec fn wf(&self) -> bool {
        self.id_cache.wf()
    }

    /// An updater that starts from the identifiers in `id_cache` and has
    /// seen no address yet. Its passes stop short on an unchanged address.
    pub fn new(id_cache: IdCache) -> (updater: Updater)
        requires
            id_cache.wf(),
        ensures
            updater.wf(),
            updater@.ids == id_cache@,
            updater@.seen.v4() is None,
            updater@.seen.v6() is None,
            updater@.short_circuit,
    {
        Updater { id_cache, lookup_cache: LookupCache::new(), short_circuit: true }
    }

    /// Sets whether a pass may stop short when the address has not changed.
    /// Without it every pass that learns the address reconciles every record.
    pub fn set_short_circuit(&mut self, short_circuit: bool)
        requires
            old(self).wf(),
        ensures
            final(self).wf(),
            final(self)@ == (UpdaterView { short_circuit, ..old(self)@ }),
    {
        self.short_circuit = short_circuit;
    }

    /// The identifier cache.
    pub fn id_cache(&self) -> (cache: &IdCache)
        requires
            self.wf(),
        ensures
            cache.wf(),
            cache@ == self@.ids,
    {
        &self.id_cache
    }

    /// The addresses seen last.
    pub fn lookup_cache(&self) -> (cache: &LookupCache)
        ensures
            *cache == self@.seen,
    {
        &self.lookup_cache
    }

    /// What is to be written to the cache file now.
    pub fn save(&self) -> (snapshot: CacheSnapshot)
        requires
            self.wf(),
        ensures
            snapshot@.depicts(self@.ids),
            snapshot@.cache() == self@.ids,
    {
        self.id_cache.save()
    }

    /// The records a pass hands out for the address `addr`, given how it
    /// changed.
    fn concerned_records<T>(&self, records: &Vec<ZoneRecord>, addr: IpAddress, change: &UpdateResult<
        T,
    >) -> (due: Vec<ZoneRecord>)
        ensures
            due.deep_view() == concerned(
                self@.short_circuit,
                self@.ids,
                records.deep_view(),
                addr.family_of(),
                *change,
            ),
    {
        let unchanged = match change {
            UpdateResult::Unchanged => true,
            _ => false,
        };
        if unchanged && self.short_circuit {
            unresolved_records(&self.id_cache, records, addr)
        } else {
            all_records(records)
        }
    }

    /// One step of the IPv4 pass over `records`. Without records the pass is
    /// over at once and no lookup is made. The address of a successful lookup
    /// is remembered as the one seen last.
    pub fn update_v4(&mut self, records: &Vec<ZoneRecord>, event: PassEvent<Ipv4>) -> (action:
        PassAction<Ipv4>)
        requires
            old(self).wf(),
        ensures
            final(self).wf(),
            action@ == pass(
                old(self)@.short_circuit,
                old(self)@.ids,
                records.deep_view(),
                Family::V4,
                old(self)@.seen.v4(),
                event,
            ),
            final(self)@.seen.v4() == seen_after(records.deep_view(), old(self)@.seen.v4(), event),
            final(self)@.seen.v6() == old(self)@.seen.v6(),
            final(self)@.ids == old(self)@.ids,
            final(self)@.short_circuit == old(self)@.short_circuit,
    {
        if records.len() == 0 {
            return PassAction::Finish(Idle::NothingConfigured);
        }
        match event {
            PassEvent::Begin => PassAction::Lookup,
            PassEvent::LookupFailed => PassAction::Finish(Idle::LookupFailed),
            PassEvent::Address(addr) => {
                let change = self.lookup_cache.update_v4(&addr);
                let due = self.concerned_records(records, IpAddress::V4(addr), &change);
                if due.len() == 0 {
                    PassAction::Finish(Idle::Unchanged)
                } else {
                    PassAction::Reconcile { addr, change, records: due }
                }
            },
        }
    }

    /// One step of the IPv6 pass over `records`. Without records the pass is
    /// over at once and no lookup is made. The address of a successful lookup
    /// is remembered as the one seen last.
    pub fn update_v6(&mut self, records: &Vec<ZoneRecord>, event: PassEvent<Ipv6>) -> (action:
        PassAction<Ipv6>)
        requires
            old(self).wf(),
        ensures
            final(self).wf(),
            action@ == pass(
                old(self)@.short_circuit,
                old(self)@.ids,
                records.deep_view(),
                Family::V6,
                old(self)@.seen.v6(),
                event,
            ),
            final(self)@.seen.v6() == seen_after(records.deep_view(), old(self)@.seen.v6(), event),
            final(self)@.seen.v4() == old(self)@.seen.v4(),
            final(self)@.ids == old(self)@.ids,
            final(self)@.short_circuit == old(self)@.short_circuit,
    {
        if records.len() == 0 {
            return PassAction::Finish(Idle::NothingConfigured);
        }
        match event {
            PassEvent::Begin => PassAction::Lookup,
            PassEvent::LookupFailed => PassAction::Finish(Idle::LookupFailed),
            PassEvent::Address(addr) => {
                let change = self.lookup_cache.update_v6(&addr);
                let due = self.concerned_records(records, IpAddress::V6(addr), &change);
                if due.len() == 0 {
                    PassAction::Finish(Idle::Unchanged)
                } else {
                    PassAction::Reconcile { addr, change, records: due }
                }
            },
        }
    }

    /// One step of the task that brings the record `rec` to the address
    /// `addr`, against this updater's identifier cache. See
    /// [`task::update_record`].
    pub fn update_record(&mut self, rec: &ZoneRecord, addr: IpAddress, step: Step, event: Event) -> (res:
        (Step, Action))
        requires
            old(self).wf(),
        ensures
            final(self).wf(),
            advance(old(self)@.ids, rec@, addr, step@, event@) == (Transition {
                cache: final(self)@.ids,
                step: res.0@,
                action: res.1@,
            }),
            final(self)@.seen == old(self)@.seen,
            final(self)@.short_circuit == old(self)@.short_circuit,
    {
        task::update_record(&mut self.id_cache, rec, addr, step, event)
    }
}

/// The second of two passes that are told the same address. Where the pass
/// may stop short and the cache holds the identifier of every record, it
/// ends without a call to the provider. Where it may not stop short, it
/// reconciles every record with the unchanged address. A record whose
/// identifier the cache does not hold is reconciled in either case.
pub proof fn lemma_unchanged_address<T>(
    short_circuit: bool,
    cache: IdCacheView,
    records: Seq<ZoneRecordView>,
    family: Family,
    before: Option<T>,
    addr: T,
)
    requires
        records.len() > 0,
    ensures
        ({
            let seen = seen_after(records, before, PassEvent::Address(addr));
            let second = pass(short_circuit, cache, records, family, seen, PassEvent::Address(addr));
            &&& seen == Some(addr)
            &&& short_circuit && unresolved(cache, records, family).len() == 0 ==> second
                == PassActionView::<T>::Finish(Idle::Unchanged)
            &&& !short_circuit ==> second == (PassActionView::Reconcile {
                addr,
                change: UpdateResult::Unchanged,
                records,
            })
            &&& forall|i: int|
                0 <= i < records.len() && cache.record(#[trigger] records[i].name, family) is None
                    ==> second is Reconcile && second->records.contains(records[i])
        }),
{
    let seen = seen_after(records, before, PassEvent::Address(addr));
    let second = pass(short_circuit, cache, records, family, seen, PassEvent::Address(addr));
    let wanted = |record: ZoneRecordView| cache.record(record.name, family) is None;
    assert forall|i: int|
        0 <= i < records.len() && cache.record(
            #[trigger] records[i].name,
            family,
        ) is None implies second is Reconcile && second->records.contains(records[i]) by {
        records.lemma_filter_contains(wanted, i);
        let due = concerned(short_circuit, cache, records, family, UpdateResult::<T>::Unchanged);
        assert(due.contains(records[i]));
    }
}

/// The second of two passes that are told different addresses reconciles
/// every record with the new address and exposes the previous one.
pub proof fn lemma_changed_address<T>(
    short_circuit: bool,
    cache: IdCacheView,
    records: Seq<ZoneRecordView>,
    family: Family,
    before: Option<T>,
    first: T,
    second: T,
)
    requires
        records.len() > 0,
        first != second,
    ensures
        pass(
            short_circuit,
            cache,
            records,
            family,
            seen_after(records, before, PassEvent::Address(first)),
            PassEvent::Address(second),
        ) == (PassActionView::Reconcile {
            addr: second,
            change: UpdateResult::Updated(first),
            records,
        }),
{
}

/// The first pass of a process that learns the address reconciles every
/// record: nothing seen before is never taken for nothing to do.
pub proof fn lemma_first_address<T>(
    short_circuit: bool,
    cache: IdCacheView,
    records: Seq<ZoneRecordView>,
    family: Family,
    addr: T,
)
    requires
        records.len() > 0,
    ensures
        pass(short_circuit, cache, records, family, None, PassEvent::Address(addr)) == (
        PassActionView::Reconcile { addr, change: UpdateResult::Initialized, records }),
{
}

/// A pass that has no record for its family asks for nothing, not even for
/// the address; one whose lookup failed ends there and leaves the address
/// seen last as it was.
pub proof fn lemma_idle_pass<T>(
    short_circuit: bool,
    cache: IdCacheView,
    records: Seq<ZoneRecordView>,
    family: Family,
    seen: Option<T>,
    event: PassEvent<T>,
)
    ensures
        records.len() == 0 ==> pass(short_circuit, cache, records, family, seen, event)
            == PassActionView::<T>::Finish(Idle::NothingConfigured) && seen_after(
            records,
            seen,
            event,
        ) == seen,
        records.len() > 0 && event is LookupFailed ==> pass(
            short_circuit,
            cache,
            records,
            family,
            seen,
            event,
        ) == PassActionView::<T>::Finish(Idle::LookupFailed) && seen_after(records, seen, event)
            == seen,
{
}

} // verus!
