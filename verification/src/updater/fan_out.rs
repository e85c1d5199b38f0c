//! Many tasks on one cache.
//!
//! The tasks of a pass run side by side and share the identifier cache. A
//! task touches the cache only inside a step, and a step has the cache to
//! itself, so whatever the host program's scheduling, what happens to the
//! cache is some sequence of whole steps. This module states what holds of
//! every such sequence.

use vstd::prelude::*;
use crate::addr::{Family, IpAddress};
use crate::config::ZoneRecordView;
use crate::cloudflare::zone::ZoneView;
use crate::updater::id_cache::{lemma_with_zones, listed_id, IdCacheView};
use crate::updater::task::{
    advance, answered, lemma_answered_step_stays_on_course, lemma_call_marks_the_step,
    lemma_known_record_is_not_created, lemma_sibling_step_keeps_on_course,
    lemma_step_agrees_on_zone, lemma_step_before_zone, lemma_step_keeps_identifiers,
    lemma_step_makes_progress, lemma_step_uses_the_cached_zone_id,
    lemma_unlisted_zone_stays_unknown, on_course, ActionView, EventView, StepView,
};

verus! {

/// One task: what it reconciles and where it stands.
pub struct TaskView {
    pub rec: ZoneRecordView,
    pub addr: IpAddress,
    pub step: StepView,
}

/// The tasks of a pass and the cache they share.
pub struct Fleet {
    pub cache: IdCacheView,
    pub tasks: Seq<TaskView>,
}

/// One step of one task: the task's number in the fleet and the event it is
/// handed.
pub struct Turn {
    pub task: int,
    pub event: EventView,
}

impl Fleet {
    /// What the task whose turn it is asks for. A turn of a task that is not
    /// in the fleet asks for nothing.
    pub open spec fn asked(self, turn: Turn) -> ActionView {
        if 0 <= turn.task < self.tasks.len() {
            let task = self.tasks[turn.task];
            advance(self.cache, task.rec, task.addr, task.step, turn.event).action
        } else {
            ActionView::Finish
        }
    }

    /// The fleet after the turn: the task has moved, the cache is as the
    /// step left it, the other tasks stand where they stood.
    pub open spec fn after(self, turn: Turn) -> Fleet {
        if 0 <= turn.task < self.tasks.len() {
            let task = self.tasks[turn.task];
            let taken = advance(self.cache, task.rec, task.addr, task.step, turn.event);
            Fleet {
                cache: taken.cache,
                tasks: self.tasks.update(
                    turn.task,
                    TaskView { rec: task.rec, addr: task.addr, step: taken.step },
                ),
            }
        } else {
            self
        }
    }

    /// The fleet after the turns of `schedule`, first to last.
    pub open spec fn after_all(self, schedule: Seq<Turn>) -> Fleet
        decreases schedule.len(),
    {
        if schedule.len() == 0 {
            self
        } else {
            self.after_all(schedule.drop_last()).after(schedule.last())
        }
    }

    /// What the turns of `schedule` ask for, turn by turn.
    pub open spec fn asked_all(self, schedule: Seq<Turn>) -> Seq<ActionView>
        decreases schedule.len(),
    {
        if schedule.len() == 0 {
            Seq::empty()
        } else {
            self.asked_all(schedule.drop_last()).push(
                self.after_all(schedule.drop_last()).asked(schedule.last()),
            )
        }
    }
}

/// Once the cache holds an identifier for a record and family, no task of
/// the fleet asks for that record to be created for that family, however
/// the tasks take turns and whatever they are told; and the cache goes on
/// holding an identifier for it.
pub proof fn lemma_at_most_one_creation(
    fleet: Fleet,
    schedule: Seq<Turn>,
    name: Seq<char>,
    family: Family,
)
    requires
        fleet.cache.record(name, family) is Some,
    ensures
        fleet.after_all(schedule).cache.record(name, family) is Some,
        fleet.asked_all(schedule).len() == schedule.len(),
        forall|k: int|
            0 <= k < schedule.len() ==> !(#[trigger] fleet.asked_all(schedule)[k]).creates(
                name,
                family,
            ),
    decreases schedule.len(),
{
    if schedule.len() > 0 {
        let front = schedule.drop_last();
        let turn = schedule.last();
        lemma_at_most_one_creation(fleet, front, name, family);
        let before = fleet.after_all(front);
        if 0 <= turn.task < before.tasks.len() {
            let task = before.tasks[turn.task];
            lemma_known_record_is_not_created(
                before.cache,
                task.rec,
                task.addr,
                task.step,
                turn.event,
                name,
                family,
            );
            lemma_step_keeps_identifiers(
                before.cache,
                task.rec,
                task.addr,
                task.step,
                turn.event,
                name,
                family,
            );
        }
        assert forall|k: int| 0 <= k < schedule.len() implies !(#[trigger] fleet.asked_all(
            schedule,
        )[k]).creates(name, family) by {
            if k < front.len() {
                assert(fleet.asked_all(schedule)[k] == fleet.asked_all(front)[k]);
            }
        }
    }
}

/// Every zone listing handed to a task of the schedule gives `zone` the
/// identifier `id`, or does not name it.
pub open spec fn listings_agree(schedule: Seq<Turn>, zone: Seq<char>, id: Seq<char>) -> bool {
    forall|k: int|
        0 <= k < schedule.len() ==> ((#[trigger] schedule[k]).event matches EventView::Zones(
            Ok(listing),
        ) ==> listed_id(listing, zone) is None || listed_id(listing, zone) == Some(id))
}

/// Tasks that share a zone and refresh it side by side leave the cache with
/// one identifier for it. If all listings they are handed agree on the
/// zone's identifier, then however the tasks take turns the cache answers
/// for the zone with that identifier or not at all, never with anything
/// else; and once it answers, it goes on answering the same.
pub proof fn lemma_fan_out_agrees_on_zone(
    fleet: Fleet,
    schedule: Seq<Turn>,
    zone: Seq<char>,
    id: Seq<char>,
)
    requires
        fleet.cache.zone(zone) is None || fleet.cache.zone(zone) == Some(id),
        listings_agree(schedule, zone, id),
    ensures
        fleet.after_all(schedule).cache.zone(zone) is None || fleet.after_all(schedule).cache.zone(
            zone,
        ) == Some(id),
        fleet.cache.zone(zone) == Some(id) ==> fleet.after_all(schedule).cache.zone(zone) == Some(
            id,
        ),
    decreases schedule.len(),
{
    if schedule.len() > 0 {
        let front = schedule.drop_last();
        let turn = schedule.last();
        assert forall|k: int| 0 <= k < front.len() implies ((#[trigger] front[k]).event matches EventView::Zones(
            Ok(listing),
        ) ==> listed_id(listing, zone) is None || listed_id(listing, zone) == Some(id)) by {
            assert(front[k] == schedule[k]);
        }
        lemma_fan_out_agrees_on_zone(fleet, front, zone, id);
        let before = fleet.after_all(front);
        if 0 <= turn.task < before.tasks.len() {
            let task = before.tasks[turn.task];
            assert(turn == schedule[schedule.len() - 1]);
            lemma_step_agrees_on_zone(
                before.cache,
                task.rec,
                task.addr,
                task.step,
                turn.event,
                zone,
                id,
            );
        }
    }
}

/// The turn of the schedule is one in which a task that waits for the zone
/// listing is handed a listing that names `zone`.
pub open spec fn refreshes(fleet: Fleet, schedule: Seq<Turn>, k: int, zone: Seq<char>) -> bool {
    let before = fleet.after_all(schedule.take(k));
    &&& 0 <= k < schedule.len()
    &&& 0 <= schedule[k].task < before.tasks.len()
    &&& before.tasks[schedule[k].task].step is ListingZones
    &&& schedule[k].event matches EventView::Zones(Ok(listing)) && listed_id(listing, zone) is Some
}

/// If the listings agree on the zone's identifier and at least one task of
/// the fleet takes a listing in that names the zone, the cache ends up with
/// exactly that identifier for the zone: however many tasks refreshed it,
/// and in whatever order.
pub proof fn lemma_fan_out_converges(
    fleet: Fleet,
    schedule: Seq<Turn>,
    zone: Seq<char>,
    id: Seq<char>,
    k: int,
)
    requires
        fleet.cache.zone(zone) is None || fleet.cache.zone(zone) == Some(id),
        listings_agree(schedule, zone, id),
        refreshes(fleet, schedule, k, zone),
    ensures
        fleet.after_all(schedule).cache.zone(zone) == Some(id),
    decreases schedule.len(),
{
    let front = schedule.drop_last();
    let turn = schedule.last();
    let before = fleet.after_all(front);
    assert forall|j: int| 0 <= j < front.len() implies ((#[trigger] front[j]).event matches EventView::Zones(
        Ok(listing),
    ) ==> listed_id(listing, zone) is None || listed_id(listing, zone) == Some(id)) by {
        assert(front[j] == schedule[j]);
    }
    assert(turn == schedule[schedule.len() - 1]);
    lemma_fan_out_agrees_on_zone(fleet, front, zone, id);
    if k < front.len() {
        assert(front.take(k) =~= schedule.take(k));
        assert(front[k] == schedule[k]);
        lemma_fan_out_converges(fleet, front, zone, id, k);
    } else {
        assert(schedule.take(k) =~= front);
    }
    if 0 <= turn.task < before.tasks.len() {
        let task = before.tasks[turn.task];
        lemma_step_agrees_on_zone(before.cache, task.rec, task.addr, task.step, turn.event, zone, id);
    }
}

/// The turn in which a task that waits for the zone listing is handed one
/// that names the zone leaves the cache answering with the listing's
/// identifier, whatever the other tasks did before.
pub proof fn lemma_refresh_turn_resolves_zone(
    fleet: Fleet,
    turn: Turn,
    listing: Seq<ZoneView>,
    zone: Seq<char>,
)
    requires
        0 <= turn.task < fleet.tasks.len(),
        fleet.tasks[turn.task].step is ListingZones,
        turn.event == EventView::Zones(Ok(listing)),
        listed_id(listing, zone) is Some,
    ensures
        fleet.after(turn).cache.zone(zone) == listed_id(listing, zone),
        fleet.after(turn).cache == fleet.cache.with_zones(listing),
{
    lemma_with_zones(fleet.cache, listing, zone);
}

/// How many turns of the schedule are turns of the task `task`.
pub open spec fn turns_of(schedule: Seq<Turn>, task: int) -> nat
    decreases schedule.len(),
{
    if schedule.len() == 0 {
        0
    } else if schedule.last().task == task {
        turns_of(schedule.drop_last(), task) + 1
    } else {
        turns_of(schedule.drop_last(), task)
    }
}

/// No zone listing handed to a task of the schedule names `zone`.
pub open spec fn unlisted(schedule: Seq<Turn>, zone: Seq<char>) -> bool {
    forall|k: int|
        0 <= k < schedule.len() ==> ((#[trigger] schedule[k]).event matches EventView::Zones(
            Ok(listing),
        ) ==> listed_id(listing, zone) is None)
}

impl Fleet {
    /// The step at which the task `task` stands when the turn `k` of the
    /// schedule begins.
    pub open spec fn step_at(self, schedule: Seq<Turn>, k: int, task: int) -> StepView {
        self.after_all(schedule.take(k)).tasks[task].step
    }

    /// The cache answers for `zone` with `id` or not at all, and every task
    /// for a record of that zone holds `id` or no zone identifier yet. A
    /// fleet whose tasks all stand at the start is such a fleet whenever its
    /// cache is.
    pub open spec fn zone_agreed(self, zone: Seq<char>, id: Seq<char>) -> bool {
        &&& self.cache.zone(zone) is None || self.cache.zone(zone) == Some(id)
        &&& forall|t: int|
            0 <= t < self.tasks.len() && (#[trigger] self.tasks[t]).rec.zone == zone
                ==> self.tasks[t].step.zone_id() is None || self.tasks[t].step.zone_id() == Some(
                id,
            )
    }

    /// Every turn of the task `task` hands it good news in turn, for as long
    /// as the task has not ended.
    pub open spec fn well_answered(self, schedule: Seq<Turn>, task: int) -> bool {
        forall|k: int|
            0 <= k < schedule.len() && (#[trigger] schedule[k]).task == task ==> self.step_at(
                schedule,
                k,
                task,
            ).is_final() || answered(
                self.tasks[task].rec,
                self.tasks[task].addr,
                self.step_at(schedule, k, task),
                schedule[k].event,
            )
    }
}

/// Turns change where tasks stand and nothing else about them: the fleet
/// keeps its tasks, each task keeps its record and address, and no task
/// falls back.
pub proof fn lemma_tasks_stay(fleet: Fleet, schedule: Seq<Turn>)
    ensures
        fleet.after_all(schedule).tasks.len() == fleet.tasks.len(),
        forall|t: int|
            0 <= t < fleet.tasks.len() ==> {
                let now = #[trigger] fleet.after_all(schedule).tasks[t];
                &&& now.rec == fleet.tasks[t].rec
                &&& now.addr == fleet.tasks[t].addr
                &&& now.step.rank() >= fleet.tasks[t].step.rank()
            },
    decreases schedule.len(),
{
    if schedule.len() > 0 {
        let front = schedule.drop_last();
        let turn = schedule.last();
        lemma_tasks_stay(fleet, front);
        let before = fleet.after_all(front);
        if 0 <= turn.task < before.tasks.len() {
            let task = before.tasks[turn.task];
            lemma_call_marks_the_step(before.cache, task.rec, task.addr, task.step, turn.event);
        }
        assert forall|t: int| 0 <= t < fleet.tasks.len() implies {
            let now = #[trigger] fleet.after_all(schedule).tasks[t];
            &&& now.rec == fleet.tasks[t].rec
            &&& now.addr == fleet.tasks[t].addr
            &&& now.step.rank() >= fleet.tasks[t].step.rank()
        } by {
            assert(before.tasks[t].rec == fleet.tasks[t].rec);
        }
    }
}

/// Taking the turns of one schedule and then those of another is taking the
/// turns of the two put together.
pub proof fn lemma_after_all_concat(fleet: Fleet, first: Seq<Turn>, then: Seq<Turn>)
    ensures
        fleet.after_all(first + then) == fleet.after_all(first).after_all(then),
    decreases then.len(),
{
    if then.len() == 0 {
        assert(first + then =~= first);
    } else {
        assert((first + then).drop_last() =~= first + then.drop_last());
        assert((first + then).last() == then.last());
        lemma_after_all_concat(fleet, first, then.drop_last());
    }
}

/// Every turn asks for one action.
pub proof fn lemma_asked_len(fleet: Fleet, schedule: Seq<Turn>)
    ensures
        fleet.asked_all(schedule).len() == schedule.len(),
    decreases schedule.len(),
{
    if schedule.len() > 0 {
        lemma_asked_len(fleet, schedule.drop_last());
    }
}

/// What the turn `k` asks for is what its task asks for when handed the
/// turn's event, with the fleet as the turns before it left it.
pub proof fn lemma_asked_at(fleet: Fleet, schedule: Seq<Turn>, k: int)
    requires
        0 <= k < schedule.len(),
    ensures
        fleet.asked_all(schedule).len() == schedule.len(),
        fleet.asked_all(schedule)[k] == fleet.after_all(schedule.take(k)).asked(schedule[k]),
    decreases schedule.len(),
{
    let front = schedule.drop_last();
    lemma_asked_len(fleet, front);
    if k == schedule.len() - 1 {
        assert(schedule.take(k) =~= front);
    } else {
        lemma_asked_at(fleet, front, k);
        assert(front.take(k) =~= schedule.take(k));
        assert(front[k] == schedule[k]);
    }
}

/// However the tasks take turns and whatever they are told, a task lists
/// the zones at most once, lists its records at most once, and updates or
/// creates its record at most once.
pub proof fn lemma_each_call_at_most_once(fleet: Fleet, schedule: Seq<Turn>, j: int, k: int)
    requires
        0 <= j < k < schedule.len(),
        schedule[j].task == schedule[k].task,
    ensures
        ({
            let first = fleet.asked_all(schedule)[j];
            let second = fleet.asked_all(schedule)[k];
            &&& !(first is ListZones && second is ListZones)
            &&& !(first is ListRecords && second is ListRecords)
            &&& !(first.changes_record() && second.changes_record())
        }),
{
    lemma_asked_at(fleet, schedule, j);
    lemma_asked_at(fleet, schedule, k);
    let t = schedule[j].task;
    let at_j = fleet.after_all(schedule.take(j));
    let at_k = fleet.after_all(schedule.take(k));
    lemma_tasks_stay(fleet, schedule.take(j));
    lemma_tasks_stay(fleet, schedule.take(k));
    if 0 <= t < fleet.tasks.len() {
        let after_j = at_j.after(schedule[j]);
        let upto = schedule.take(j + 1);
        assert(upto.drop_last() =~= schedule.take(j));
        assert(upto.last() == schedule[j]);
        assert(fleet.after_all(upto) == after_j);
        let between = schedule.subrange(j + 1, k);
        assert(schedule.take(k) =~= upto + between);
        lemma_after_all_concat(fleet, upto, between);
        lemma_tasks_stay(fleet, upto);
        lemma_tasks_stay(after_j, between);
        assert(at_k.tasks[t].step.rank() >= after_j.tasks[t].step.rank());
        let task_j = at_j.tasks[t];
        let task_k = at_k.tasks[t];
        lemma_call_marks_the_step(at_j.cache, task_j.rec, task_j.addr, task_j.step, schedule[j].event);
        lemma_call_marks_the_step(at_k.cache, task_k.rec, task_k.addr, task_k.step, schedule[k].event);
    }
}

/// Tasks that share a zone and run side by side make every call with the
/// zone identifier the provider listed. If the listings agree on the zone's
/// identifier, then however the tasks take turns every listing of records,
/// every update and every creation for a record of that zone is made with
/// that identifier, and the fleet goes on agreeing on it.
pub proof fn lemma_fan_out_calls_use_the_listed_id(
    fleet: Fleet,
    schedule: Seq<Turn>,
    zone: Seq<char>,
    id: Seq<char>,
)
    requires
        fleet.zone_agreed(zone, id),
        listings_agree(schedule, zone, id),
    ensures
        fleet.after_all(schedule).zone_agreed(zone, id),
        fleet.asked_all(schedule).len() == schedule.len(),
        forall|k: int|
            0 <= k < schedule.len() && 0 <= (#[trigger] schedule[k]).task < fleet.tasks.len()
                && fleet.tasks[schedule[k].task].rec.zone == zone ==> fleet.asked_all(
                schedule,
            )[k].zone_id() is None || fleet.asked_all(schedule)[k].zone_id() == Some(id),
    decreases schedule.len(),
{
    lemma_asked_len(fleet, schedule);
    if schedule.len() > 0 {
        let front = schedule.drop_last();
        let turn = schedule.last();
        assert forall|k: int| 0 <= k < front.len() implies ((#[trigger] front[k]).event matches EventView::Zones(
            Ok(listing),
        ) ==> listed_id(listing, zone) is None || listed_id(listing, zone) == Some(id)) by {
            assert(front[k] == schedule[k]);
        }
        assert(turn == schedule[schedule.len() - 1]);
        lemma_fan_out_calls_use_the_listed_id(fleet, front, zone, id);
        lemma_tasks_stay(fleet, front);
        let before = fleet.after_all(front);
        let after = fleet.after_all(schedule);
        if 0 <= turn.task < before.tasks.len() {
            let task = before.tasks[turn.task];
            lemma_step_agrees_on_zone(before.cache, task.rec, task.addr, task.step, turn.event, zone, id);
            if task.rec.zone == zone {
                lemma_step_uses_the_cached_zone_id(
                    before.cache,
                    task.rec,
                    task.addr,
                    task.step,
                    turn.event,
                    id,
                );
            }
            assert forall|t: int|
                0 <= t < after.tasks.len() && (#[trigger] after.tasks[t]).rec.zone
                    == zone implies after.tasks[t].step.zone_id() is None
                || after.tasks[t].step.zone_id() == Some(id) by {
                if t != turn.task {
                    assert(after.tasks[t] == before.tasks[t]);
                }
            }
        }
        assert forall|k: int|
            0 <= k < schedule.len() && 0 <= (#[trigger] schedule[k]).task < fleet.tasks.len()
                && fleet.tasks[schedule[k].task].rec.zone == zone implies fleet.asked_all(
            schedule,
        )[k].zone_id() is None || fleet.asked_all(schedule)[k].zone_id() == Some(id) by {
            if k < front.len() {
                assert(front[k] == schedule[k]);
                assert(fleet.asked_all(schedule)[k] == fleet.asked_all(front)[k]);
            } else {
                assert(before.tasks[turn.task].rec == fleet.tasks[turn.task].rec);
            }
        }
    }
}

/// A task whose zone the cache does not know and no listing names does not
/// get in the way of the others. However the tasks take turns, it asks for
/// no listing of records, no update and no creation; none of its turns
/// changes the records in the cache; and it stands before its zone to the
/// end, the zone unknown.
pub proof fn lemma_task_of_unlisted_zone_is_quiet(fleet: Fleet, schedule: Seq<Turn>, task: int)
    requires
        0 <= task < fleet.tasks.len(),
        fleet.tasks[task].step.before_zone(),
        fleet.cache.zone(fleet.tasks[task].rec.zone) is None,
        unlisted(schedule, fleet.tasks[task].rec.zone),
    ensures
        fleet.after_all(schedule).cache.zone(fleet.tasks[task].rec.zone) is None,
        fleet.after_all(schedule).tasks[task].step.before_zone(),
        fleet.asked_all(schedule).len() == schedule.len(),
        forall|k: int|
            0 <= k < schedule.len() && (#[trigger] schedule[k]).task == task ==> {
                let asked = fleet.asked_all(schedule)[k];
                let before = fleet.after_all(schedule.take(k));
                &&& asked is ListZones || asked is Persist || asked is Finish
                &&& before.after(schedule[k]).cache.records == before.cache.records
            },
    decreases schedule.len(),
{
    lemma_asked_len(fleet, schedule);
    if schedule.len() > 0 {
        let zone = fleet.tasks[task].rec.zone;
        let front = schedule.drop_last();
        let turn = schedule.last();
        assert forall|k: int| 0 <= k < front.len() implies ((#[trigger] front[k]).event matches EventView::Zones(
            Ok(listing),
        ) ==> listed_id(listing, zone) is None) by {
            assert(front[k] == schedule[k]);
        }
        assert(turn == schedule[schedule.len() - 1]);
        lemma_task_of_unlisted_zone_is_quiet(fleet, front, task);
        lemma_tasks_stay(fleet, front);
        let before = fleet.after_all(front);
        assert(before.tasks[task].rec == fleet.tasks[task].rec);
        if 0 <= turn.task < before.tasks.len() {
            let moved = before.tasks[turn.task];
            lemma_unlisted_zone_stays_unknown(
                before.cache,
                moved.rec,
                moved.addr,
                moved.step,
                turn.event,
                zone,
            );
            if turn.task == task {
                lemma_step_before_zone(before.cache, moved.rec, moved.addr, moved.step, turn.event);
            }
        }
        assert forall|k: int| 0 <= k < schedule.len() && (#[trigger] schedule[k]).task == task implies {
            let asked = fleet.asked_all(schedule)[k];
            let at = fleet.after_all(schedule.take(k));
            &&& asked is ListZones || asked is Persist || asked is Finish
            &&& at.after(schedule[k]).cache.records == at.cache.records
        } by {
            if k < front.len() {
                assert(front[k] == schedule[k]);
                assert(front.take(k) =~= schedule.take(k));
                assert(fleet.asked_all(schedule)[k] == fleet.asked_all(front)[k]);
            } else {
                assert(schedule.take(k) =~= front);
            }
        }
    }
}

/// A task that is handed good news at each of its turns goes through,
/// whatever happens to the others. However the tasks take turns, and
/// whatever the other tasks are told, the task does not fail, and once it
/// has found or created its record the cache holds the identifier.
pub proof fn lemma_answered_task_goes_through(fleet: Fleet, schedule: Seq<Turn>, task: int)
    requires
        0 <= task < fleet.tasks.len(),
        on_course(
            fleet.cache,
            fleet.tasks[task].rec,
            fleet.tasks[task].addr,
            fleet.tasks[task].step,
        ),
        fleet.well_answered(schedule, task),
    ensures
        on_course(
            fleet.after_all(schedule).cache,
            fleet.tasks[task].rec,
            fleet.tasks[task].addr,
            fleet.after_all(schedule).tasks[task].step,
        ),
    decreases schedule.len(),
{
    if schedule.len() > 0 {
        let front = schedule.drop_last();
        let turn = schedule.last();
        assert forall|k: int| 0 <= k < front.len() && (#[trigger] front[k]).task == task implies fleet.step_at(
            front,
            k,
            task,
        ).is_final() || answered(
            fleet.tasks[task].rec,
            fleet.tasks[task].addr,
            fleet.step_at(front, k, task),
            front[k].event,
        ) by {
            assert(front[k] == schedule[k]);
            assert(front.take(k) =~= schedule.take(k));
        }
        lemma_answered_task_goes_through(fleet, front, task);
        lemma_tasks_stay(fleet, front);
        let before = fleet.after_all(front);
        let mine = before.tasks[task];
        assert(mine.rec == fleet.tasks[task].rec && mine.addr == fleet.tasks[task].addr);
        if 0 <= turn.task < before.tasks.len() {
            let moved = before.tasks[turn.task];
            if turn.task == task {
                assert(turn == schedule[schedule.len() - 1]);
                assert(schedule.take(schedule.len() - 1) =~= front);
                lemma_answered_step_stays_on_course(
                    before.cache,
                    mine.rec,
                    mine.addr,
                    mine.step,
                    turn.event,
                );
            } else {
                lemma_sibling_step_keeps_on_course(
                    before.cache,
                    mine.rec,
                    mine.addr,
                    mine.step,
                    moved.rec,
                    moved.addr,
                    moved.step,
                    turn.event,
                );
            }
        }
    }
}

/// A task ends after seven of its own turns at most, however many turns the
/// others take in between: each of its turns moves it forward until it has
/// ended.
pub proof fn lemma_task_ends_within_seven_turns(fleet: Fleet, schedule: Seq<Turn>, task: int)
    requires
        0 <= task < fleet.tasks.len(),
    ensures
        fleet.after_all(schedule).tasks[task].step.is_final() || fleet.after_all(
            schedule,
        ).tasks[task].step.rank() >= fleet.tasks[task].step.rank() + turns_of(schedule, task),
        turns_of(schedule, task) >= 7 ==> fleet.after_all(schedule).tasks[task].step.is_final(),
    decreases schedule.len(),
{
    if schedule.len() > 0 {
        let front = schedule.drop_last();
        let turn = schedule.last();
        lemma_task_ends_within_seven_turns(fleet, front, task);
        lemma_tasks_stay(fleet, front);
        let before = fleet.after_all(front);
        if 0 <= turn.task < before.tasks.len() {
            let moved = before.tasks[turn.task];
            lemma_step_makes_progress(before.cache, moved.rec, moved.addr, moved.step, turn.event);
        }
    }
}

/// A task that started before it knew its record and has come to update
/// or create it has asked for exactly that at one of its turns.
pub proof fn lemma_record_was_changed_by_a_call(fleet: Fleet, schedule: Seq<Turn>, task: int)
    requires
        0 <= task < fleet.tasks.len(),
        fleet.tasks[task].step.rank() < 5,
    ensures
        ({
            let step = fleet.after_all(schedule).tasks[task].step;
            step.rank() >= 5 && !(step is Failed) ==> exists|k: int|
                0 <= k < schedule.len() && (#[trigger] schedule[k]).task == task
                    && fleet.asked_all(schedule)[k].changes_record()
        }),
    decreases schedule.len(),
{
    if schedule.len() > 0 {
        let front = schedule.drop_last();
        let turn = schedule.last();
        lemma_record_was_changed_by_a_call(fleet, front, task);
        lemma_tasks_stay(fleet, front);
        lemma_asked_len(fleet, front);
        let before = fleet.after_all(front);
        let step = fleet.after_all(schedule).tasks[task].step;
        if step.rank() >= 5 && !(step is Failed) {
            let was = before.tasks[task].step;
            if 0 <= turn.task < before.tasks.len() {
                let moved = before.tasks[turn.task];
                lemma_call_marks_the_step(before.cache, moved.rec, moved.addr, moved.step, turn.event);
                lemma_step_makes_progress(before.cache, moved.rec, moved.addr, moved.step, turn.event);
            }
            if was.rank() >= 5 && !(was is Failed) {
                let k = choose|k: int|
                    0 <= k < front.len() && (#[trigger] front[k]).task == task && fleet.asked_all(
                        front,
                    )[k].changes_record();
                assert(schedule[k] == front[k]);
                assert(fleet.asked_all(schedule)[k] == fleet.asked_all(front)[k]);
            } else {
                let k = schedule.len() - 1;
                assert(schedule[k] == turn);
                assert(turn.task == task);
                assert(fleet.asked_all(schedule)[k] == before.asked(turn));
                assert(fleet.asked_all(schedule)[k].changes_record());
            }
        }
    }
}

/// Two tasks of one pass take turns, in any order. The zone of the one,
/// `failing`, is unknown to the cache and missing from every listing; the
/// other, `sound`, is handed good news at each of its turns. Then the
/// failing task asks for no update and no creation and never gets past its
/// zone, and the sound task is reconciled as if it were alone: it does not
/// fail, it asks for an update or a creation at most once, and once it has
/// had seven turns it is done, having asked for exactly one, with its
/// record's identifier in the cache.
pub proof fn lemma_failed_sibling_leaves_the_other_alone(
    fleet: Fleet,
    schedule: Seq<Turn>,
    failing: int,
    sound: int,
)
    requires
        0 <= failing < fleet.tasks.len(),
        0 <= sound < fleet.tasks.len(),
        failing != sound,
        fleet.tasks[failing].step is Start,
        fleet.tasks[sound].step is Start,
        fleet.cache.zone(fleet.tasks[failing].rec.zone) is None,
        unlisted(schedule, fleet.tasks[failing].rec.zone),
        fleet.well_answered(schedule, sound),
    ensures
        fleet.asked_all(schedule).len() == schedule.len(),
        fleet.after_all(schedule).tasks[failing].step.before_zone(),
        forall|k: int|
            0 <= k < schedule.len() && (#[trigger] schedule[k]).task == failing
                ==> !fleet.asked_all(schedule)[k].changes_record(),
        !(fleet.after_all(schedule).tasks[sound].step is Failed),
        forall|j: int, k: int|
            0 <= j < k < schedule.len() && (#[trigger] schedule[j]).task == sound
                && (#[trigger] schedule[k]).task == sound ==> !(fleet.asked_all(
                schedule,
            )[j].changes_record() && fleet.asked_all(schedule)[k].changes_record()),
        turns_of(schedule, sound) >= 7 ==> {
            &&& fleet.after_all(schedule).tasks[sound].step is Done
            &&& fleet.after_all(schedule).cache.record(
                fleet.tasks[sound].rec.name,
                fleet.tasks[sound].addr.family_of(),
            ) is Some
            &&& exists|k: int|
                0 <= k < schedule.len() && (#[trigger] schedule[k]).task == sound
                    && fleet.asked_all(schedule)[k].changes_record()
        },
{
    lemma_task_of_unlisted_zone_is_quiet(fleet, schedule, failing);
    lemma_answered_task_goes_through(fleet, schedule, sound);
    lemma_task_ends_within_seven_turns(fleet, schedule, sound);
    lemma_record_was_changed_by_a_call(fleet, schedule, sound);
    assert forall|j: int, k: int|
        0 <= j < k < schedule.len() && (#[trigger] schedule[j]).task == sound
            && (#[trigger] schedule[k]).task == sound implies !(fleet.asked_all(
        schedule,
    )[j].changes_record() && fleet.asked_all(schedule)[k].changes_record()) by {
        lemma_each_call_at_most_once(fleet, schedule, j, k);
    }
}

} // verus!
