//! Reconciliation of one record for one address family, as a state machine.
//!
//! A task never calls the provider itself. Each step takes the outcome of
//! the call it asked for last and answers with the next call to make; the
//! host program makes the calls. Between two steps other tasks may run on the
//! same cache, so every step reads the cache afresh.

use vstd::prelude::*;
use vstd::string::StringExecFns;
use crate::addr::IpAddress;
use crate::cloudflare::record::{DnsRecord, DnsRecordView};
use crate::cloudflare::zone::{Zone, ZoneView};
use crate::config::{ZoneRecord, ZoneRecordView};
use crate::addr::Family;
use crate::updater::id_cache::{
    lemma_listed_record_is_known, lemma_unlisted_record_is_unchanged, lemma_with_record_keeps,
    lemma_with_records_keeps, lemma_with_zones, listed_id, IdCache, IdCacheView,
};

verus! {

/// How a task that is done brought the record up to date.
#[derive(Clone, Copy, Debug, PartialEq, Eq, Structural)]
pub enum Outcome {
    /// An existing record was pointed at the address.
    Updated,
    /// A record was created with the address.
    Created,
}

/// Why a task failed. A failure ends the task for this cycle and leaves its
/// siblings alone. Where a call failed, the failure carries what the host
/// program said about it. A cache file that cannot be written is no
/// failure: the identifiers stay in memory and the task goes on.
#[derive(Debug, PartialEq, Eq)]
pub enum Failure {
    /// Listing the zones failed.
    ListZones(String),
    /// The zone is not among the zones the provider listed.
    ZoneNotFound,
    /// Listing the records failed.
    ListRecords(String),
    /// Updating the record failed.
    UpdateRecord(String),
    /// Creating the record failed.
    CreateRecord(String),
    /// The event handed in does not answer the call the task asked for.
    OutOfTurn,
}

/// A failure over character sequences.
pub enum FailureView {
    ListZones(Seq<char>),
    ZoneNotFound,
    ListRecords(Seq<char>),
    UpdateRecord(Seq<char>),
    CreateRecord(Seq<char>),
    OutOfTurn,
}

impl View for Failure {
    type V = FailureView;

    open spec fn view(&self) -> FailureView {
        match self {
            Failure::ListZones(cause) => FailureView::ListZones(cause@),
            Failure::ZoneNotFound => FailureView::ZoneNotFound,
            Failure::ListRecords(cause) => FailureView::ListRecords(cause@),
            Failure::UpdateRecord(cause) => FailureView::UpdateRecord(cause@),
            Failure::CreateRecord(cause) => FailureView::CreateRecord(cause@),
            Failure::OutOfTurn => FailureView::OutOfTurn,
        }
    }
}

impl FailureView {
    /// What the task was doing when it failed.
    pub open spec fn context(self) -> Seq<char> {
        match self {
            FailureView::ListZones(_) | FailureView::ZoneNotFound =>
                "Failed to get the zone identifier"@,
            FailureView::ListRecords(_) => "Failed to get the record identifier"@,
            FailureView::UpdateRecord(_) => "Failed to update the record"@,
            FailureView::CreateRecord(_) => "Failed to create the record"@,
            FailureView::OutOfTurn => "Failed to follow the task"@,
        }
    }

    /// What went wrong, for the task of the record in the zone `zone`.
    pub open spec fn cause(self, zone: Seq<char>) -> Seq<char> {
        match self {
            FailureView::ListZones(cause) => cause,
            FailureView::ZoneNotFound => "Cannot find zone: "@ + zone,
            FailureView::ListRecords(cause) => cause,
            FailureView::UpdateRecord(cause) => cause,
            FailureView::CreateRecord(cause) => cause,
            FailureView::OutOfTurn => "the event does not answer the call that was asked for"@,
        }
    }
}

impl Failure {
    /// What the task was doing when it failed, as a line for the log.
    pub fn context(&self) -> (text: &'static str)
        ensures
            text@ == self@.context(),
    {
        match self {
            Failure::ListZones(_) | Failure::ZoneNotFound => "Failed to get the zone identifier",
            Failure::ListRecords(_) => "Failed to get the record identifier",
            Failure::UpdateRecord(_) => "Failed to update the record",
            Failure::CreateRecord(_) => "Failed to create the record",
            Failure::OutOfTurn => "Failed to follow the task",
        }
    }

    /// What went wrong, for the task of the record `rec`: the host's
    /// description of the call that failed, or the name of the zone that the
    /// provider does not list.
    pub fn cause(&self, rec: &ZoneRecord) -> (text: String)
        ensures
            text@ == self@.cause(rec@.zone),
    {
        match self {
            Failure::ListZones(cause) => cause.clone(),
            Failure::ZoneNotFound => String::from_str("Cannot find zone: ").concat(
                rec.zone.as_str(),
            ),
            Failure::ListRecords(cause) => cause.clone(),
            Failure::UpdateRecord(cause) => cause.clone(),
            Failure::CreateRecord(cause) => cause.clone(),
            Failure::OutOfTurn => String::from_str(
                "the event does not answer the call that was asked for",
            ),
        }
    }
}

/// Where a task stands.
#[derive(Debug, PartialEq, Eq)]
pub enum Step {
    /// Nothing has been done yet.
    Start,
    /// The zone is not in the cache; the zone listing has been asked for.
    ListingZones,
    /// The zone listing is in the cache; writing the cache has been asked
    /// for. However the write ends, the task goes on.
    SavingZones,
    /// The zone identifier is known, the record identifier is not in the
    /// cache; the record listing has been asked for.
    ZoneResolved { zone_id: String },
    /// The record listing is in the cache; writing the cache has been asked
    /// for.
    SavingRecords { zone_id: String },
    /// The record exists at the provider; its update has been asked for.
    RecordIdResolved { zone_id: String, record_id: String },
    /// The provider has no such record; its creation has been asked for.
    RecordAbsent { zone_id: String },
    /// The record was created and its identifier is in the cache; writing
    /// the cache has been asked for.
    Created { record: DnsRecord },
    /// The record is up to date.
    Done { record: DnsRecord, outcome: Outcome },
    /// The task gave up.
    Failed { failure: Failure },
}

/// A step over character sequences.
pub enum StepView {
    Start,
    ListingZones,
    SavingZones,
    ZoneResolved { zone_id: Seq<char> },
    SavingRecords { zone_id: Seq<char> },
    RecordIdResolved { zone_id: Seq<char>, record_id: Seq<char> },
    RecordAbsent { zone_id: Seq<char> },
    Created { record: DnsRecordView },
    Done { record: DnsRecordView, outcome: Outcome },
    Failed { failure: FailureView },
}

impl View for Step {
    type V = StepView;

    open spec fn view(&self) -> StepView {
        match self {
            Step::Start => StepView::Start,
            Step::ListingZones => StepView::ListingZones,
            Step::SavingZones => StepView::SavingZones,
            Step::ZoneResolved { zone_id } => StepView::ZoneResolved { zone_id: zone_id@ },
            Step::SavingRecords { zone_id } => StepView::SavingRecords { zone_id: zone_id@ },
            Step::RecordIdResolved { zone_id, record_id } => StepView::RecordIdResolved {
                zone_id: zone_id@,
                record_id: record_id@,
            },
            Step::RecordAbsent { zone_id } => StepView::RecordAbsent { zone_id: zone_id@ },
            Step::Created { record } => StepView::Created { record: record@ },
            Step::Done { record, outcome } => StepView::Done { record: record@, outcome: *outcome },
            Step::Failed { failure } => StepView::Failed { failure: failure@ },
        }
    }
}

impl StepView {
    /// The task has ended, well or badly.
    pub open spec fn is_final(self) -> bool {
        self is Done || self is Failed
    }
}

/// The event answers what the task asked for when it took the step `step`:
/// the start signal at the start, and after that the outcome of the call
/// that the step waits for.
pub open spec fn in_turn(step: StepView, event: EventView) -> bool {
    match step {
        StepView::Start => event is Begin,
        StepView::ListingZones => event is Zones,
        StepView::SavingZones => event is Saved,
        StepView::ZoneResolved { .. } => event is Records,
        StepView::SavingRecords { .. } => event is Saved,
        StepView::RecordIdResolved { .. } => event is Updated,
        StepView::RecordAbsent { .. } => event is Created,
        StepView::Created { .. } => event is Saved,
        StepView::Done { .. } => false,
        StepView::Failed { .. } => false,
    }
}

/// What the host program reports to a task: the start signal, or the outcome
/// of the call the task asked for. An error is the host's description of it.
#[derive(Debug, PartialEq, Eq)]
pub enum Event {
    /// The task may start.
    Begin,
    /// Outcome of listing the zones.
    Zones(Result<Vec<Zone>, String>),
    /// Outcome of listing the records of the task's name.
    Records(Result<Vec<DnsRecord>, String>),
    /// Outcome of updating the record.
    Updated(Result<DnsRecord, String>),
    /// Outcome of creating the record.
    Created(Result<DnsRecord, String>),
    /// Outcome of writing the cache. The task goes on either way; a failed
    /// write is worth a line in the log, see [`Event::warning`].
    Saved(Result<(), String>),
}

/// An event over character sequences.
pub enum EventView {
    Begin,
    Zones(Result<Seq<ZoneView>, Seq<char>>),
    Records(Result<Seq<DnsRecordView>, Seq<char>>),
    Updated(Result<DnsRecordView, Seq<char>>),
    Created(Result<DnsRecordView, Seq<char>>),
    Saved(Result<(), Seq<char>>),
}

impl View for Event {
    type V = EventView;

    open spec fn view(&self) -> EventView {
        match self {
            Event::Begin => EventView::Begin,
            Event::Zones(Ok(listing)) => EventView::Zones(Ok(listing.deep_view())),
            Event::Zones(Err(cause)) => EventView::Zones(Err(cause@)),
            Event::Records(Ok(listing)) => EventView::Records(Ok(listing.deep_view())),
            Event::Records(Err(cause)) => EventView::Records(Err(cause@)),
            Event::Updated(Ok(record)) => EventView::Updated(Ok(record@)),
            Event::Updated(Err(cause)) => EventView::Updated(Err(cause@)),
            Event::Created(Ok(record)) => EventView::Created(Ok(record@)),
            Event::Created(Err(cause)) => EventView::Created(Err(cause@)),
            Event::Saved(Ok(_)) => EventView::Saved(Ok(())),
            Event::Saved(Err(cause)) => EventView::Saved(Err(cause@)),
        }
    }
}

/// What the log says of a cache file that could not be written.
pub const WRITE_FAILED: &'static str = "Failed to write the cache: ";

impl EventView {
    /// The line that the event is worth in the log beside whatever the task
    /// does next: a failed write of the cache is reported, nothing else is.
    pub open spec fn warning(self) -> Option<Seq<char>> {
        match self {
            EventView::Saved(Err(cause)) => Some(WRITE_FAILED@ + cause),
            _ => None,
        }
    }
}

impl Event {
    /// The line to log before the event is handed to the task: for a failed
    /// write of the cache, that it failed and why; for every other event,
    /// nothing. The task itself does not fail on it.
    pub fn warning(&self) -> (line: Option<String>)
        ensures
            line.deep_view() == self@.warning(),
    {
        match self {
            Event::Saved(Err(cause)) => Some(String::from_str(WRITE_FAILED).concat(cause.as_str())),
            _ => None,
        }
    }
}

/// What a task asks the host program to do next.
#[derive(Debug, PartialEq, Eq)]
pub enum Action {
    /// List all zones and report `Event::Zones`.
    ListZones,
    /// List the address records named `name` in the zone and report
    /// `Event::Records`.
    ListRecords { zone_id: String, name: String },
    /// Point the record at `addr` and report `Event::Updated`.
    UpdateRecord { zone_id: String, record_id: String, name: String, addr: IpAddress },
    /// Create the record with `addr` and report `Event::Created`.
    CreateRecord { zone_id: String, name: String, addr: IpAddress },
    /// Write the cache to its file and report `Event::Saved`.
    Persist,
    /// Nothing: the task has ended.
    Finish,
}

/// An action over character sequences.
pub enum ActionView {
    ListZones,
    ListRecords { zone_id: Seq<char>, name: Seq<char> },
    UpdateRecord { zone_id: Seq<char>, record_id: Seq<char>, name: Seq<char>, addr: IpAddress },
    CreateRecord { zone_id: Seq<char>, name: Seq<char>, addr: IpAddress },
    Persist,
    Finish,
}

impl View for Action {
    type V = ActionView;

    open spec fn view(&self) -> ActionView {
        match self {
            Action::ListZones => ActionView::ListZones,
            Action::ListRecords { zone_id, name } => ActionView::ListRecords {
                zone_id: zone_id@,
                name: name@,
            },
            Action::UpdateRecord { zone_id, record_id, name, addr } => ActionView::UpdateRecord {
                zone_id: zone_id@,
                record_id: record_id@,
                name: name@,
                addr: *addr,
            },
            Action::CreateRecord { zone_id, name, addr } => ActionView::CreateRecord {
                zone_id: zone_id@,
                name: name@,
                addr: *addr,
            },
            Action::Persist => ActionView::Persist,
            Action::Finish => ActionView::Finish,
        }
    }
}

/// One step of a task: the cache after it, where the task stands, and what
/// it asks for.
pub struct Transition {
    pub cache: IdCacheView,
    pub step: StepView,
    pub action: ActionView,
}

/// The task gives up; the cache stays as it is.
pub open spec fn fail(cache: IdCacheView, failure: FailureView) -> Transition {
    Transition { cache, step: StepView::Failed { failure }, action: ActionView::Finish }
}

/// The step taken once the zone identifier is known: with the record
/// identifier in the cache the record is updated, without it the provider is
/// asked for the records of that name.
pub open spec fn with_zone_id(
    cache: IdCacheView,
    rec: ZoneRecordView,
    addr: IpAddress,
    zone_id: Seq<char>,
) -> Transition {
    match cache.record(rec.name, addr.family_of()) {
        Some(record_id) => Transition {
            cache,
            step: StepView::RecordIdResolved { zone_id, record_id },
            action: ActionView::UpdateRecord { zone_id, record_id, name: rec.name, addr },
        },
        None => Transition {
            cache,
            step: StepView::ZoneResolved { zone_id },
            action: ActionView::ListRecords { zone_id, name: rec.name },
        },
    }
}

/// The step taken once the provider's records are in the cache: with the
/// record identifier in the cache the record is updated, without it the
/// record does not exist and is created.
pub open spec fn with_listing(
    cache: IdCacheView,
    rec: ZoneRecordView,
    addr: IpAddress,
    zone_id: Seq<char>,
) -> Transition {
    match cache.record(rec.name, addr.family_of()) {
        Some(record_id) => Transition {
            cache,
            step: StepView::RecordIdResolved { zone_id, record_id },
            action: ActionView::UpdateRecord { zone_id, record_id, name: rec.name, addr },
        },
        None => Transition {
            cache,
            step: StepView::RecordAbsent { zone_id },
            action: ActionView::CreateRecord { zone_id, name: rec.name, addr },
        },
    }
}

/// The step that the task for the record `rec` and the address `addr` takes
/// from `step` on `event`, with the cache as it is now.
pub open spec fn advance(
    cache: IdCacheView,
    rec: ZoneRecordView,
    addr: IpAddress,
    step: StepView,
    event: EventView,
) -> Transition {
    match step {
        StepView::Start => match event {
            EventView::Begin => match cache.zone(rec.zone) {
                Some(zone_id) => with_zone_id(cache, rec, addr, zone_id),
                None => Transition {
                    cache,
                    step: StepView::ListingZones,
                    action: ActionView::ListZones,
                },
            },
            _ => fail(cache, FailureView::OutOfTurn),
        },
        StepView::ListingZones => match event {
            EventView::Zones(Ok(listing)) => Transition {
                cache: cache.with_zones(listing),
                step: StepView::SavingZones,
                action: ActionView::Persist,
            },
            EventView::Zones(Err(cause)) => fail(cache, FailureView::ListZones(cause)),
            _ => fail(cache, FailureView::OutOfTurn),
        },
        StepView::SavingZones => match event {
            EventView::Saved(_) => match cache.zone(rec.zone) {
                Some(zone_id) => with_zone_id(cache, rec, addr, zone_id),
                None => fail(cache, FailureView::ZoneNotFound),
            },
            _ => fail(cache, FailureView::OutOfTurn),
        },
        StepView::ZoneResolved { zone_id } => match event {
            EventView::Records(Ok(listing)) => Transition {
                cache: cache.with_records(rec.name, listing),
                step: StepView::SavingRecords { zone_id },
                action: ActionView::Persist,
            },
            EventView::Records(Err(cause)) => fail(cache, FailureView::ListRecords(cause)),
            _ => fail(cache, FailureView::OutOfTurn),
        },
        StepView::SavingRecords { zone_id } => match event {
            EventView::Saved(_) => with_listing(cache, rec, addr, zone_id),
            _ => fail(cache, FailureView::OutOfTurn),
        },
        StepView::RecordIdResolved { .. } => match event {
            EventView::Updated(Ok(record)) => Transition {
                cache,
                step: StepView::Done { record, outcome: Outcome::Updated },
                action: ActionView::Finish,
            },
            EventView::Updated(Err(cause)) => fail(cache, FailureView::UpdateRecord(cause)),
            _ => fail(cache, FailureView::OutOfTurn),
        },
        StepView::RecordAbsent { .. } => match event {
            EventView::Created(Ok(record)) => Transition {
                cache: cache.with_record(rec.name, record),
                step: StepView::Created { record },
                action: ActionView::Persist,
            },
            EventView::Created(Err(cause)) => fail(cache, FailureView::CreateRecord(cause)),
            _ => fail(cache, FailureView::OutOfTurn),
        },
        StepView::Created { record } => match event {
            EventView::Saved(_) => Transition {
                cache,
                step: StepView::Done { record, outcome: Outcome::Created },
                action: ActionView::Finish,
            },
            _ => fail(cache, FailureView::OutOfTurn),
        },
        StepView::Done { .. } => Transition { cache, step, action: ActionView::Finish },
        StepView::Failed { .. } => Transition { cache, step, action: ActionView::Finish },
    }
}

/// Gives up with `failure`.
fn failed(failure: Failure) -> (res: (Step, Action))
    ensures
        res.0@ == (StepView::Failed { failure: failure@ }),
        res.1@ == ActionView::Finish,
{
    (Step::Failed { failure }, Action::Finish)
}

/// Looks the record identifier up in the cache and decides what to ask the
/// provider. `listed` says whether the provider's records of that name have
/// been taken in since the task began: only then does a missing identifier
/// mean that the record does not exist.
fn record_id(cache: &IdCache, rec: &ZoneRecord, addr: IpAddress, zone_id: String, listed: bool) -> (res:
    (Step, Action))
    ensures
        (Transition { cache: cache@, step: res.0@, action: res.1@ }) == if listed {
            with_listing(cache@, rec@, addr, zone_id@)
        } else {
            with_zone_id(cache@, rec@, addr, zone_id@)
        },
{
    match cache.get_record(rec.name.as_str(), &addr) {
        Some(record_id) => (
            Step::RecordIdResolved { zone_id: zone_id.clone(), record_id: record_id.clone() },
            Action::UpdateRecord { zone_id, record_id, name: rec.name.clone(), addr },
        ),
        None => if listed {
            (
                Step::RecordAbsent { zone_id: zone_id.clone() },
                Action::CreateRecord { zone_id, name: rec.name.clone(), addr },
            )
        } else {
            (
                Step::ZoneResolved { zone_id: zone_id.clone() },
                Action::ListRecords { zone_id, name: rec.name.clone() },
            )
        },
    }
}

/// Looks the zone identifier up in the cache and goes on to the record.
/// `listed` says whether the provider's zones have been taken in since the
/// task began: only then is a missing zone a failure.
fn zone_id(cache: &IdCache, rec: &ZoneRecord, addr: IpAddress, listed: bool) -> (res: (Step, Action))
    ensures
        (Transition { cache: cache@, step: res.0@, action: res.1@ }) == match cache@.zone(
            rec@.zone,
        ) {
            Some(zone_id) => with_zone_id(cache@, rec@, addr, zone_id),
            None => if listed {
                fail(cache@, FailureView::ZoneNotFound)
            } else {
                Transition {
                    cache: cache@,
                    step: StepView::ListingZones,
                    action: ActionView::ListZones,
                }
            },
        },
{
    match cache.get_zone(rec.zone.as_str()) {
        Some(zone_id) => record_id(cache, rec, addr, zone_id, false),
        None => if listed {
            failed(Failure::ZoneNotFound)
        } else {
            (Step::ListingZones, Action::ListZones)
        },
    }
}

/// Takes one step of the task that brings the record `rec` to the address
/// `addr`: from `step`, on `event`, against the shared cache. Returns where
/// the task stands now and what the host program is to do next.
///
/// The first step is taken from `Step::Start` on `Event::Begin`. After that
/// the host performs the action it was given and hands its outcome in as the
/// next event, until the action is `Action::Finish`.
pub fn update_record(cache: &mut IdCache, rec: &ZoneRecord, addr: IpAddress, step: Step, event: Event) -> (res:
    (Step, Action))
    requires
        old(cache).wf(),
    ensures
        final(cache).wf(),
        advance(old(cache)@, rec@, addr, step@, event@) == (Transition {
            cache: final(cache)@,
            step: res.0@,
            action: res.1@,
        }),
{
    match step {
        Step::Start => match event {
            Event::Begin => zone_id(cache, rec, addr, false),
            _ => failed(Failure::OutOfTurn),
        },
        Step::ListingZones => match event {
            Event::Zones(Ok(listing)) => {
                cache.save_zones(&listing);
                (Step::SavingZones, Action::Persist)
            },
            Event::Zones(Err(cause)) => failed(Failure::ListZones(cause)),
            _ => failed(Failure::OutOfTurn),
        },
        Step::SavingZones => match event {
            Event::Saved(_) => zone_id(cache, rec, addr, true),
            _ => failed(Failure::OutOfTurn),
        },
        Step::ZoneResolved { zone_id } => match event {
            Event::Records(Ok(listing)) => {
                cache.update_records(rec.name.as_str(), &listing);
                (Step::SavingRecords { zone_id }, Action::Persist)
            },
            Event::Records(Err(cause)) => failed(Failure::ListRecords(cause)),
            _ => failed(Failure::OutOfTurn),
        },
        Step::SavingRecords { zone_id } => match event {
            Event::Saved(_) => record_id(cache, rec, addr, zone_id, true),
            _ => failed(Failure::OutOfTurn),
        },
        Step::RecordIdResolved { .. } => match event {
            Event::Updated(Ok(record)) => (
                Step::Done { record, outcome: Outcome::Updated },
                Action::Finish,
            ),
            Event::Updated(Err(cause)) => failed(Failure::UpdateRecord(cause)),
            _ => failed(Failure::OutOfTurn),
        },
        Step::RecordAbsent { .. } => match event {
            Event::Created(Ok(record)) => {
                cache.update_record(rec.name.as_str(), record.clone());
                (Step::Created { record }, Action::Persist)
            },
            Event::Created(Err(cause)) => failed(Failure::CreateRecord(cause)),
            _ => failed(Failure::OutOfTurn),
        },
        Step::Created { record } => match event {
            Event::Saved(_) => (Step::Done { record, outcome: Outcome::Created }, Action::Finish),
            _ => failed(Failure::OutOfTurn),
        },
        Step::Done { record, outcome } => (Step::Done { record, outcome }, Action::Finish),
        Step::Failed { failure } => (Step::Failed { failure }, Action::Finish),
    }
}

impl StepView {
    /// How far a task has come: every step of a task that has not ended
    /// leads to a higher rank.
    pub open spec fn rank(self) -> nat {
        match self {
            StepView::Start => 0,
            StepView::ListingZones => 1,
            StepView::SavingZones => 2,
            StepView::ZoneResolved { .. } => 3,
            StepView::SavingRecords { .. } => 4,
            StepView::RecordIdResolved { .. } => 5,
            StepView::RecordAbsent { .. } => 5,
            StepView::Created { .. } => 6,
            StepView::Done { .. } => 7,
            StepView::Failed { .. } => 7,
        }
    }
}

impl ActionView {
    /// The action asks the provider to create the record `name` for
    /// `family`.
    pub open spec fn creates(self, name: Seq<char>, family: Family) -> bool {
        self matches ActionView::CreateRecord { name: created, addr, .. } && created == name
            && addr.family_of() == family
    }

    /// The action is a call to the provider.
    pub open spec fn calls_provider(self) -> bool {
        self is ListZones || self is ListRecords || self is UpdateRecord || self is CreateRecord
    }
}

impl StepView {
    /// The zone identifier that the step holds on to, if it holds one.
    pub open spec fn zone_id(self) -> Option<Seq<char>> {
        match self {
            StepView::ZoneResolved { zone_id } => Some(zone_id),
            StepView::SavingRecords { zone_id } => Some(zone_id),
            StepView::RecordIdResolved { zone_id, .. } => Some(zone_id),
            StepView::RecordAbsent { zone_id } => Some(zone_id),
            _ => None,
        }
    }

    /// The task has not got as far as knowing its zone: it stands at the
    /// start, waits for the zone listing or its writing, or has failed.
    pub open spec fn before_zone(self) -> bool {
        self is Start || self is ListingZones || self is SavingZones || self is Failed
    }
}

impl ActionView {
    /// The zone identifier that the call is made with, if it is made with
    /// one.
    pub open spec fn zone_id(self) -> Option<Seq<char>> {
        match self {
            ActionView::ListRecords { zone_id, .. } => Some(zone_id),
            ActionView::UpdateRecord { zone_id, .. } => Some(zone_id),
            ActionView::CreateRecord { zone_id, .. } => Some(zone_id),
            _ => None,
        }
    }

    /// The action changes a record at the provider: it updates or creates
    /// one.
    pub open spec fn changes_record(self) -> bool {
        self is UpdateRecord || self is CreateRecord
    }
}

/// The event is in turn and brings good news: the call it reports went well,
/// a zone listing names the task's zone, and a record that was created is of
/// the task's family. A write of the cache is good news however it ended.
pub open spec fn answered(rec: ZoneRecordView, addr: IpAddress, step: StepView, event: EventView) -> bool {
    &&& in_turn(step, event)
    &&& match event {
        EventView::Begin => true,
        EventView::Zones(outcome) => outcome matches Ok(listing) && listed_id(listing, rec.zone) is Some,
        EventView::Records(outcome) => outcome is Ok,
        EventView::Updated(outcome) => outcome is Ok,
        EventView::Created(outcome) => outcome matches Ok(record) && record.content.family_of()
            == Some(addr.family_of()),
        EventView::Saved(_) => true,
    }
}

/// The task is on course with the cache as it is: it has not failed, the
/// zone it waits to read from the cache is there, and once it has found or
/// created its record the cache holds the record's identifier.
pub open spec fn on_course(cache: IdCacheView, rec: ZoneRecordView, addr: IpAddress, step: StepView) -> bool {
    &&& !(step is Failed)
    &&& step is SavingZones ==> cache.zone(rec.zone) is Some
    &&& (step is RecordIdResolved || step is Created || step is Done) ==> cache.record(
        rec.name,
        addr.family_of(),
    ) is Some
}

/// A call tells where the task stands after asking for it, and is asked for
/// only from further back: the zones are listed on the way from the start,
/// the records on the way to knowing the zone, and a record is updated or
/// created on the way to knowing whether it exists. As a task only moves
/// forward, it asks for each of the three at most once.
pub proof fn lemma_call_marks_the_step(
    cache: IdCacheView,
    rec: ZoneRecordView,
    addr: IpAddress,
    step: StepView,
    event: EventView,
)
    ensures
        ({
            let next = advance(cache, rec, addr, step, event);
            &&& next.action is ListZones ==> step.rank() < 1 && next.step.rank() == 1
            &&& next.action is ListRecords ==> step.rank() < 3 && next.step.rank() == 3
            &&& next.action.changes_record() ==> step.rank() < 5 && next.step.rank() == 5
            &&& next.step.rank() == 5 && step.rank() < 5 ==> next.action.changes_record()
            &&& next.step.rank() > 5 && step.rank() < 5 ==> next.step is Failed
            &&& next.step.rank() >= step.rank()
        }),
{
}

/// Every zone identifier a task holds on to or makes a call with is the one
/// the cache gave it. If the cache answers for the task's zone with `id` or
/// not at all, and the step holds `id` or none, then the step taken holds
/// `id` or none, and a call it asks for is made with `id`.
pub proof fn lemma_step_uses_the_cached_zone_id(
    cache: IdCacheView,
    rec: ZoneRecordView,
    addr: IpAddress,
    step: StepView,
    event: EventView,
    id: Seq<char>,
)
    requires
        cache.zone(rec.zone) is None || cache.zone(rec.zone) == Some(id),
        step.zone_id() is None || step.zone_id() == Some(id),
    ensures
        ({
            let next = advance(cache, rec, addr, step, event);
            &&& next.step.zone_id() is None || next.step.zone_id() == Some(id)
            &&& next.action.zone_id() is None || next.action.zone_id() == Some(id)
        }),
{
}

/// A zone that the cache does not know and that the listing handed in does
/// not name stays unknown over the step, whichever task takes it.
pub proof fn lemma_unlisted_zone_stays_unknown(
    cache: IdCacheView,
    rec: ZoneRecordView,
    addr: IpAddress,
    step: StepView,
    event: EventView,
    zone: Seq<char>,
)
    requires
        cache.zone(zone) is None,
        event matches EventView::Zones(Ok(listing)) ==> listed_id(listing, zone) is None,
    ensures
        advance(cache, rec, addr, step, event).cache.zone(zone) is None,
{
    match (step, event) {
        (StepView::ListingZones, EventView::Zones(Ok(listing))) => {
            lemma_with_zones(cache, listing, zone);
        },
        (StepView::ZoneResolved { .. }, EventView::Records(Ok(listing))) => {
            lemma_with_records_keeps(cache, rec.name, listing, zone, Family::V4);
        },
        _ => {},
    }
}

/// A task whose zone the cache does not know and no listing names gets no
/// further than the zone: it asks for the zone listing and its writing and
/// for nothing else, it leaves the records in the cache alone, and its zone
/// stays unknown.
pub proof fn lemma_step_before_zone(
    cache: IdCacheView,
    rec: ZoneRecordView,
    addr: IpAddress,
    step: StepView,
    event: EventView,
)
    requires
        step.before_zone(),
        cache.zone(rec.zone) is None,
        event matches EventView::Zones(Ok(listing)) ==> listed_id(listing, rec.zone) is None,
    ensures
        ({
            let next = advance(cache, rec, addr, step, event);
            &&& next.step.before_zone()
            &&& next.cache.zone(rec.zone) is None
            &&& next.cache.records == cache.records
            &&& next.action is ListZones || next.action is Persist || next.action is Finish
        }),
{
    lemma_unlisted_zone_stays_unknown(cache, rec, addr, step, event, rec.zone);
    match (step, event) {
        (StepView::ListingZones, EventView::Zones(Ok(listing))) => {
            lemma_with_zones(cache, listing, rec.zone);
        },
        _ => {},
    }
}

/// A task that is on course and is handed good news in turn stays on
/// course: it does not fail.
pub proof fn lemma_answered_step_stays_on_course(
    cache: IdCacheView,
    rec: ZoneRecordView,
    addr: IpAddress,
    step: StepView,
    event: EventView,
)
    requires
        on_course(cache, rec, addr, step),
        step.is_final() || answered(rec, addr, step, event),
    ensures
        on_course(
            advance(cache, rec, addr, step, event).cache,
            rec,
            addr,
            advance(cache, rec, addr, step, event).step,
        ),
{
    match (step, event) {
        (StepView::ListingZones, EventView::Zones(Ok(listing))) => {
            lemma_with_zones(cache, listing, rec.zone);
        },
        (StepView::ZoneResolved { .. }, EventView::Records(Ok(listing))) => {
            lemma_with_records_keeps(cache, rec.name, listing, rec.name, addr.family_of());
            lemma_with_records_keeps(cache, rec.name, listing, rec.zone, addr.family_of());
        },
        (StepView::RecordAbsent { .. }, EventView::Created(Ok(record))) => {
            lemma_with_record_keeps(cache, rec.name, record, rec.name, addr.family_of());
        },
        _ => {},
    }
}

/// A task that is on course stays on course over a step of any other task,
/// whatever the other is handed: its failure or success takes nothing from
/// the cache that the first relies on.
pub proof fn lemma_sibling_step_keeps_on_course(
    cache: IdCacheView,
    rec: ZoneRecordView,
    addr: IpAddress,
    step: StepView,
    sibling: ZoneRecordView,
    sibling_addr: IpAddress,
    sibling_step: StepView,
    event: EventView,
)
    requires
        on_course(cache, rec, addr, step),
    ensures
        on_course(
            advance(cache, sibling, sibling_addr, sibling_step, event).cache,
            rec,
            addr,
            step,
        ),
{
    lemma_step_keeps_identifiers(
        cache,
        sibling,
        sibling_addr,
        sibling_step,
        event,
        rec.name,
        addr.family_of(),
    );
    lemma_step_keeps_identifiers(
        cache,
        sibling,
        sibling_addr,
        sibling_step,
        event,
        rec.zone,
        addr.family_of(),
    );
}

/// A task that has not ended moves forward with every step, so it ends
/// after seven steps at most and asks for each call at most once. A task
/// that has ended stays where it is and asks for nothing.
pub proof fn lemma_step_makes_progress(
    cache: IdCacheView,
    rec: ZoneRecordView,
    addr: IpAddress,
    step: StepView,
    event: EventView,
)
    ensures
        !step.is_final() ==> advance(cache, rec, addr, step, event).step.rank() > step.rank(),
        step.is_final() ==> advance(cache, rec, addr, step, event) == (Transition {
            cache,
            step,
            action: ActionView::Finish,
        }),
        advance(cache, rec, addr, step, event).action is Finish <==> advance(
            cache,
            rec,
            addr,
            step,
            event,
        ).step.is_final(),
{
}

/// A failure ends a task without a further call and without a change to the
/// cache: whatever fails, nothing is created or updated after it.
pub proof fn lemma_failure_is_quiet(
    cache: IdCacheView,
    rec: ZoneRecordView,
    addr: IpAddress,
    step: StepView,
    event: EventView,
)
    requires
        advance(cache, rec, addr, step, event).step is Failed,
    ensures
        advance(cache, rec, addr, step, event).action is Finish,
        advance(cache, rec, addr, step, event).cache == cache,
{
}

/// A creation is asked for only by the step that follows a record listing,
/// and only if the cache, with that listing in it, has no identifier for the
/// record. The call carries the task's own name and address.
pub proof fn lemma_creation_follows_a_miss(
    cache: IdCacheView,
    rec: ZoneRecordView,
    addr: IpAddress,
    step: StepView,
    event: EventView,
)
    requires
        advance(cache, rec, addr, step, event).action is CreateRecord,
    ensures
        step is SavingRecords,
        event is Saved,
        cache.record(rec.name, addr.family_of()) is None,
        advance(cache, rec, addr, step, event).action.creates(rec.name, addr.family_of()),
        advance(cache, rec, addr, step, event).step is RecordAbsent,
{
}

/// Every call a task asks for is about the task's own record: a listing, an
/// update and a creation name the task's record, and an update and a
/// creation carry the task's address.
pub proof fn lemma_calls_are_for_the_task(
    cache: IdCacheView,
    rec: ZoneRecordView,
    addr: IpAddress,
    step: StepView,
    event: EventView,
)
    ensures
        match advance(cache, rec, addr, step, event).action {
            ActionView::ListRecords { name, .. } => name == rec.name,
            ActionView::UpdateRecord { name, addr: to, .. } => name == rec.name && to == addr,
            ActionView::CreateRecord { name, addr: to, .. } => name == rec.name && to == addr,
            _ => true,
        },
{
}

/// A task whose zone the cache misses lists the zones once. With the
/// listing taken in, and whether or not the cache file could be written,
/// the task goes on if the listing names the zone, with the identifier the
/// listing gives; if it does not, the task fails there, without listing
/// again and without a call for the record.
pub proof fn lemma_zone_miss_takes_one_listing(
    cache: IdCacheView,
    rec: ZoneRecordView,
    addr: IpAddress,
    listing: Seq<ZoneView>,
    written: Result<(), Seq<char>>,
)
    requires
        cache.zone(rec.zone) is None,
    ensures
        ({
            let first = advance(cache, rec, addr, StepView::Start, EventView::Begin);
            let second = advance(first.cache, rec, addr, first.step, EventView::Zones(Ok(listing)));
            let third = advance(second.cache, rec, addr, second.step, EventView::Saved(written));
            &&& first.action is ListZones
            &&& first.cache == cache
            &&& second.action is Persist
            &&& second.cache == cache.with_zones(listing)
            &&& third.cache == second.cache
            &&& !(third.action is ListZones)
            &&& match listed_id(listing, rec.zone) {
                Some(zone_id) => third == with_zone_id(second.cache, rec, addr, zone_id),
                None => third == fail(second.cache, FailureView::ZoneNotFound),
            }
        }),
{
    lemma_with_zones(cache, listing, rec.zone);
}

/// A record that neither the cache nor the provider knows is created: if
/// the cache holds no identifier for the task's record and the listing
/// taken in holds no record of the task's family, the step after it asks
/// for the record to be created, in the task's zone, with the task's name
/// and address, whether or not the cache file could be written.
pub proof fn lemma_unlisted_record_is_created(
    cache: IdCacheView,
    rec: ZoneRecordView,
    addr: IpAddress,
    zone_id: Seq<char>,
    listing: Seq<DnsRecordView>,
    written: Result<(), Seq<char>>,
)
    requires
        cache.record(rec.name, addr.family_of()) is None,
        forall|i: int|
            0 <= i < listing.len() ==> (#[trigger] listing[i]).content.family_of() != Some(
                addr.family_of(),
            ),
    ensures
        ({
            let listed = advance(
                cache,
                rec,
                addr,
                StepView::ZoneResolved { zone_id },
                EventView::Records(Ok(listing)),
            );
            let next = advance(listed.cache, rec, addr, listed.step, EventView::Saved(written));
            &&& listed.action is Persist
            &&& next.action == (ActionView::CreateRecord { zone_id, name: rec.name, addr })
            &&& next.step == (StepView::RecordAbsent { zone_id })
        }),
{
    lemma_unlisted_record_is_unchanged(cache, rec.name, listing, rec.name, addr.family_of());
}

/// Whether the cache file could be written makes no difference to a task:
/// from every step, a failed write leads to the same step, the same action
/// and the same cache as a write that went well. What is in memory stays in
/// use for the rest of the process.
pub proof fn lemma_write_outcome_is_ignored(
    cache: IdCacheView,
    rec: ZoneRecordView,
    addr: IpAddress,
    step: StepView,
    cause: Seq<char>,
)
    ensures
        advance(cache, rec, addr, step, EventView::Saved(Err(cause))) == advance(
            cache,
            rec,
            addr,
            step,
            EventView::Saved(Ok(())),
        ),
        EventView::Saved(Err(cause)).warning() == Some(WRITE_FAILED@ + cause),
        EventView::Saved(Ok(())).warning() is None,
{
}

/// A task fails on nothing but a call to the provider that failed, a zone
/// that the provider does not list, or an event handed in out of turn.
pub proof fn lemma_failure_has_a_remote_cause(
    cache: IdCacheView,
    rec: ZoneRecordView,
    addr: IpAddress,
    step: StepView,
    event: EventView,
)
    requires
        !(step is Failed),
        advance(cache, rec, addr, step, event).step is Failed,
    ensures
        match advance(cache, rec, addr, step, event).step->failure {
            FailureView::ListZones(cause) => step is ListingZones && event == EventView::Zones(
                Err(cause),
            ),
            FailureView::ZoneNotFound => step is SavingZones && event is Saved && cache.zone(
                rec.zone,
            ) is None,
            FailureView::ListRecords(cause) => step is ZoneResolved && event
                == EventView::Records(Err(cause)),
            FailureView::UpdateRecord(cause) => step is RecordIdResolved && event
                == EventView::Updated(Err(cause)),
            FailureView::CreateRecord(cause) => step is RecordAbsent && event
                == EventView::Created(Err(cause)),
            FailureView::OutOfTurn => !in_turn(step, event),
        },
{
}

/// Every step that changes the cache asks for the cache to be written
/// next: no mutation goes unpersisted.
pub proof fn lemma_mutation_is_persisted(
    cache: IdCacheView,
    rec: ZoneRecordView,
    addr: IpAddress,
    step: StepView,
    event: EventView,
)
    ensures
        advance(cache, rec, addr, step, event).cache != cache ==> advance(
            cache,
            rec,
            addr,
            step,
            event,
        ).action is Persist,
{
}

/// A record that the provider lists is updated, never created a second
/// time: if the listing taken in for the task's name holds a record of the
/// task's family, the step after it asks for an update of a listed record
/// of that family, whether or not the cache file could be written. This is
/// how a record is found again whose creation never reached the cache
/// file.
pub proof fn lemma_listed_record_is_updated(
    cache: IdCacheView,
    rec: ZoneRecordView,
    addr: IpAddress,
    zone_id: Seq<char>,
    listing: Seq<DnsRecordView>,
    i: int,
    written: Result<(), Seq<char>>,
)
    requires
        0 <= i < listing.len(),
        listing[i].content.family_of() == Some(addr.family_of()),
    ensures
        ({
            let listed = advance(
                cache,
                rec,
                addr,
                StepView::ZoneResolved { zone_id },
                EventView::Records(Ok(listing)),
            );
            let next = advance(listed.cache, rec, addr, listed.step, EventView::Saved(written));
            &&& listed.action is Persist
            &&& next.action matches ActionView::UpdateRecord {
                zone_id: zone,
                record_id,
                name,
                addr: to,
            }
            &&& zone == zone_id
            &&& name == rec.name
            &&& to == addr
            &&& exists|j: int|
                0 <= j < listing.len() && listing[j].content.family_of() == Some(addr.family_of())
                    && record_id == #[trigger] listing[j].id
        }),
{
    lemma_listed_record_is_known(cache, rec.name, listing, addr.family_of(), i);
}

/// While the cache holds an identifier for a record and family, no step of
/// any task asks for the creation of that record for that family.
pub proof fn lemma_known_record_is_not_created(
    cache: IdCacheView,
    rec: ZoneRecordView,
    addr: IpAddress,
    step: StepView,
    event: EventView,
    name: Seq<char>,
    family: Family,
)
    requires
        cache.record(name, family) is Some,
    ensures
        !advance(cache, rec, addr, step, event).action.creates(name, family),
{
}

/// No step of a task makes the cache forget an identifier: a zone or a
/// record that was known before the step is known after it.
pub proof fn lemma_step_keeps_identifiers(
    cache: IdCacheView,
    rec: ZoneRecordView,
    addr: IpAddress,
    step: StepView,
    event: EventView,
    name: Seq<char>,
    family: Family,
)
    ensures
        cache.record(name, family) is Some ==> advance(cache, rec, addr, step, event).cache.record(
            name,
            family,
        ) is Some,
        cache.zone(name) is Some ==> advance(cache, rec, addr, step, event).cache.zone(
            name,
        ) is Some,
{
    match (step, event) {
        (StepView::ListingZones, EventView::Zones(Ok(listing))) => {
            lemma_with_zones(cache, listing, name);
        },
        (StepView::ZoneResolved { .. }, EventView::Records(Ok(listing))) => {
            lemma_with_records_keeps(cache, rec.name, listing, name, family);
        },
        (StepView::RecordAbsent { .. }, EventView::Created(Ok(record))) => {
            lemma_with_record_keeps(cache, rec.name, record, name, family);
        },
        _ => {},
    }
}

/// The identifier of a record that was created is in the cache before the
/// task goes on: the step that takes the provider's answer in makes the
/// cache answer with the new identifier.
pub proof fn lemma_created_record_is_cached(
    cache: IdCacheView,
    rec: ZoneRecordView,
    addr: IpAddress,
    zone_id: Seq<char>,
    record: DnsRecordView,
)
    requires
        record.content.family_of() == Some(addr.family_of()),
    ensures
        advance(
            cache,
            rec,
            addr,
            StepView::RecordAbsent { zone_id },
            EventView::Created(Ok(record)),
        ).cache.record(rec.name, addr.family_of()) == Some(record.id),
        advance(
            cache,
            rec,
            addr,
            StepView::RecordAbsent { zone_id },
            EventView::Created(Ok(record)),
        ).action is Persist,
{
}

/// A zone's identifier in the cache changes only when a zone listing is
/// taken in, and then to what the listing says. If every listing gives the
/// zone the identifier `id` or does not name it, a cache that answers `id`
/// or nothing for the zone does so after the step; and a listing that names
/// the zone makes it answer `id`.
pub proof fn lemma_step_agrees_on_zone(
    cache: IdCacheView,
    rec: ZoneRecordView,
    addr: IpAddress,
    step: StepView,
    event: EventView,
    zone: Seq<char>,
    id: Seq<char>,
)
    requires
        cache.zone(zone) is None || cache.zone(zone) == Some(id),
        event matches EventView::Zones(Ok(listing)) ==> listed_id(listing, zone) is None
            || listed_id(listing, zone) == Some(id),
    ensures
        ({
            let next = advance(cache, rec, addr, step, event).cache;
            &&& next.zone(zone) is None || next.zone(zone) == Some(id)
            &&& cache.zone(zone) == Some(id) ==> next.zone(zone) == Some(id)
            &&& step is ListingZones ==> (event matches EventView::Zones(Ok(listing)) ==> (listed_id(
                listing,
                zone,
            ) is Some ==> next.zone(zone) == Some(id)))
        }),
{
    match (step, event) {
        (StepView::ListingZones, EventView::Zones(Ok(listing))) => {
            lemma_with_zones(cache, listing, zone);
        },
        (StepView::ZoneResolved { .. }, EventView::Records(Ok(listing))) => {
            lemma_with_records_keeps(cache, rec.name, listing, zone, Family::V4);
        },
        _ => {},
    }
}

/// Bringing a record whose zone and identifier the cache holds to an address
/// takes one call, an update with the cached identifiers and that address,
/// and changes nothing in the cache. Doing it again does the same again.
pub proof fn lemma_update_is_repeatable(
    cache: IdCacheView,
    rec: ZoneRecordView,
    addr: IpAddress,
    answer: DnsRecordView,
)
    requires
        cache.zone(rec.zone) is Some,
        cache.record(rec.name, addr.family_of()) is Some,
    ensures
        ({
            let first = advance(cache, rec, addr, StepView::Start, EventView::Begin);
            let second = advance(first.cache, rec, addr, first.step, EventView::Updated(Ok(answer)));
            &&& first.action == (ActionView::UpdateRecord {
                zone_id: cache.zone(rec.zone)->0,
                record_id: cache.record(rec.name, addr.family_of())->0,
                name: rec.name,
                addr,
            })
            &&& second.step == (StepView::Done { record: answer, outcome: Outcome::Updated })
            &&& second.action is Finish
            &&& second.cache == cache
            &&& advance(second.cache, rec, addr, StepView::Start, EventView::Begin) == first
        }),
{
}

} // verus!
