//! What holds of the contact table after a snapshot, stated over the table's
//! view and proved from the definitions of the three steps.

use vstd::prelude::*;

use super::{
    after_snapshot, datalink_contact, is_stale, lookup, sensor_contact, swept, well_keyed,
    with_target, with_targets, with_wingmen, RadarTarget,
};
use crate::data::dcs::{Target, Wingman};
use crate::symbols::{Donor, Identification};

verus! {

/// Some own-sensor report in the list carries `id`.
pub open spec fn sensed(targets: Seq<Target>, id: i32) -> bool {
    exists|i: int| 0 <= i < targets.len() && (#[trigger] targets[i]).id == id
}

/// Some filled datalink slot in the list carries `id`.
pub open spec fn linked(wingmen: Seq<Option<Wingman>>, id: i32) -> bool {
    exists|i: int|
        0 <= i < wingmen.len() && (#[trigger] wingmen[i]) is Some && wingmen[i]->0.wingmen_id == id
}

/// The last own-sensor report in the list that carries `id`.
pub open spec fn last_sensed(targets: Seq<Target>, id: i32) -> Target
    recommends
        sensed(targets, id),
    decreases targets.len(),
{
    if targets.len() == 0 {
        arbitrary()
    } else if targets.last().id == id {
        targets.last()
    } else {
        last_sensed(targets.drop_last(), id)
    }
}

/// The last datalink report in the list that carries `id`.
pub open spec fn last_linked(wingmen: Seq<Option<Wingman>>, id: i32) -> Wingman
    recommends
        linked(wingmen, id),
    decreases wingmen.len(),
{
    if wingmen.len() == 0 {
        arbitrary()
    } else if wingmen.last() is Some && wingmen.last()->0.wingmen_id == id {
        wingmen.last()->0
    } else {
        last_linked(wingmen.drop_last(), id)
    }
}

proof fn lemma_sensed_step(targets: Seq<Target>, id: i32)
    requires
        targets.len() > 0,
    ensures
        sensed(targets, id) <==> targets.last().id == id || sensed(targets.drop_last(), id),
{
    let front = targets.drop_last();
    if sensed(targets, id) {
        let i = choose|i: int| 0 <= i < targets.len() && (#[trigger] targets[i]).id == id;
        if i < targets.len() - 1 {
            assert(front[i].id == id);
        }
    }
    if sensed(front, id) {
        let i = choose|i: int| 0 <= i < front.len() && (#[trigger] front[i]).id == id;
        assert(targets[i].id == id);
    }
    if targets.last().id == id {
        assert(targets[targets.len() - 1].id == id);
    }
}

proof fn lemma_linked_step(wingmen: Seq<Option<Wingman>>, id: i32)
    requires
        wingmen.len() > 0,
    ensures
        linked(wingmen, id) <==> (wingmen.last() is Some && wingmen.last()->0.wingmen_id == id)
            || linked(wingmen.drop_last(), id),
{
    let front = wingmen.drop_last();
    if linked(wingmen, id) {
        let i = choose|i: int|
            0 <= i < wingmen.len() && (#[trigger] wingmen[i]) is Some && wingmen[i]->0.wingmen_id
                == id;
        if i < wingmen.len() - 1 {
            assert(front[i] is Some && front[i]->0.wingmen_id == id);
        }
    }
    if linked(front, id) {
        let i = choose|i: int|
            0 <= i < front.len() && (#[trigger] front[i]) is Some && front[i]->0.wingmen_id == id;
        assert(wingmen[i] is Some && wingmen[i]->0.wingmen_id == id);
    }
    if wingmen.last() is Some && wingmen.last()->0.wingmen_id == id {
        assert(wingmen[wingmen.len() - 1] is Some);
    }
}

/// The last report that carries `id` is one of the list's reports and carries
/// `id`.
pub proof fn lemma_last_sensed(targets: Seq<Target>, id: i32)
    requires
        sensed(targets, id),
    ensures
        last_sensed(targets, id).id == id,
        targets.contains(last_sensed(targets, id)),
    decreases targets.len(),
{
    lemma_sensed_step(targets, id);
    if targets.last().id == id {
        assert(targets[targets.len() - 1] == targets.last());
    } else {
        let front = targets.drop_last();
        lemma_last_sensed(front, id);
        let i = choose|i: int| 0 <= i < front.len() && front[i] == last_sensed(front, id);
        assert(targets[i] == last_sensed(front, id));
    }
}

/// The last datalink report that carries `id` fills one of the list's slots
/// and carries `id`.
pub proof fn lemma_last_linked(wingmen: Seq<Option<Wingman>>, id: i32)
    requires
        linked(wingmen, id),
    ensures
        last_linked(wingmen, id).wingmen_id == id,
        wingmen.contains(Some(last_linked(wingmen, id))),
    decreases wingmen.len(),
{
    lemma_linked_step(wingmen, id);
    if wingmen.last() is Some && wingmen.last()->0.wingmen_id == id {
        assert(wingmen[wingmen.len() - 1] == Some(last_linked(wingmen, id)));
    } else {
        let front = wingmen.drop_last();
        lemma_last_linked(front, id);
        let i = choose|i: int| 0 <= i < front.len() && front[i] == Some(last_linked(front, id));
        assert(wingmen[i] == Some(last_linked(front, id)));
    }
}

/// Own-sensor reports leave alone every identifier that none of them carries.
pub proof fn lemma_targets_leave_others(
    table: Map<i32, RadarTarget>,
    time: i64,
    targets: Seq<Target>,
    id: i32,
)
    requires
        !sensed(targets, id),
    ensures
        lookup(with_targets(table, time, targets), id) == lookup(table, id),
    decreases targets.len(),
{
    if targets.len() > 0 {
        lemma_sensed_step(targets, id);
        lemma_targets_leave_others(table, time, targets.drop_last(), id);
    }
}

/// After own-sensor reports that carry `id`, the contact under `id` is what
/// the last of them makes of the entry that was there before the first.
pub proof fn lemma_targets_merge(
    table: Map<i32, RadarTarget>,
    time: i64,
    targets: Seq<Target>,
    id: i32,
)
    requires
        sensed(targets, id),
    ensures
        lookup(with_targets(table, time, targets), id) == Some(
            sensor_contact(lookup(table, id), time, last_sensed(targets, id)),
        ),
    decreases targets.len(),
{
    lemma_sensed_step(targets, id);
    let front = targets.drop_last();
    if targets.last().id == id {
        if sensed(front, id) {
            lemma_targets_merge(table, time, front, id);
            lemma_last_sensed(front, id);
        } else {
            lemma_targets_leave_others(table, time, front, id);
        }
    } else {
        lemma_targets_merge(table, time, front, id);
    }
}

/// Datalink reports leave alone every identifier that none of them carries.
pub proof fn lemma_wingmen_leave_others(
    table: Map<i32, RadarTarget>,
    time: i64,
    wingmen: Seq<Option<Wingman>>,
    id: i32,
)
    requires
        !linked(wingmen, id),
    ensures
        lookup(with_wingmen(table, time, wingmen), id) == lookup(table, id),
    decreases wingmen.len(),
{
    if wingmen.len() > 0 {
        lemma_linked_step(wingmen, id);
        lemma_wingmen_leave_others(table, time, wingmen.drop_last(), id);
    }
}

/// After datalink reports that carry `id`, the contact under `id` is what the
/// last of them makes of the entry that was there before the first.
pub proof fn lemma_wingmen_merge(
    table: Map<i32, RadarTarget>,
    time: i64,
    wingmen: Seq<Option<Wingman>>,
    id: i32,
)
    requires
        linked(wingmen, id),
    ensures
        lookup(with_wingmen(table, time, wingmen), id) == Some(
            datalink_contact(lookup(table, id), time, last_linked(wingmen, id)),
        ),
    decreases wingmen.len(),
{
    lemma_linked_step(wingmen, id);
    let front = wingmen.drop_last();
    if wingmen.last() is Some && wingmen.last()->0.wingmen_id == id {
        if linked(front, id) {
            lemma_wingmen_merge(table, time, front, id);
            lemma_last_linked(front, id);
        } else {
            lemma_wingmen_leave_others(table, time, front, id);
        }
    } else {
        lemma_wingmen_merge(table, time, front, id);
    }
}

/// Own-sensor reports keep the table well keyed.
pub proof fn lemma_targets_keep_keys(table: Map<i32, RadarTarget>, time: i64, targets: Seq<Target>)
    requires
        well_keyed(table),
    ensures
        well_keyed(with_targets(table, time, targets)),
    decreases targets.len(),
{
    if targets.len() > 0 {
        lemma_targets_keep_keys(table, time, targets.drop_last());
    }
}

/// Datalink reports keep the table well keyed.
pub proof fn lemma_wingmen_keep_keys(
    table: Map<i32, RadarTarget>,
    time: i64,
    wingmen: Seq<Option<Wingman>>,
)
    requires
        well_keyed(table),
    ensures
        well_keyed(with_wingmen(table, time, wingmen)),
    decreases wingmen.len(),
{
    if wingmen.len() > 0 {
        lemma_wingmen_keep_keys(table, time, wingmen.drop_last());
    }
}

/// A snapshot keeps the table well keyed.
pub proof fn lemma_snapshot_keeps_keys(
    table: Map<i32, RadarTarget>,
    time: i64,
    targets: Seq<Target>,
    wingmen: Seq<Option<Wingman>>,
)
    requires
        well_keyed(table),
    ensures
        well_keyed(after_snapshot(table, time, targets, wingmen)),
{
    lemma_targets_keep_keys(swept(table, time), time, targets);
    lemma_wingmen_keep_keys(with_targets(swept(table, time), time, targets), time, wingmen);
}

/// A contact that no report of the snapshot carries stays as it was if it is
/// still fresh at the snapshot's time, and is gone otherwise.
pub proof fn lemma_unreported_contact(
    table: Map<i32, RadarTarget>,
    time: i64,
    targets: Seq<Target>,
    wingmen: Seq<Option<Wingman>>,
    id: i32,
)
    requires
        !sensed(targets, id),
        !linked(wingmen, id),
    ensures
        lookup(after_snapshot(table, time, targets, wingmen), id) == lookup(
            swept(table, time),
            id,
        ),
{
    let aged = swept(table, time);
    lemma_targets_leave_others(aged, time, targets, id);
    lemma_wingmen_leave_others(with_targets(aged, time, targets), time, wingmen, id);
}

/// Aging: a contact last updated before the snapshot's time, which no report
/// of the snapshot carries, is absent once the snapshot has been applied.
pub proof fn lemma_unrefreshed_contact_expires(
    table: Map<i32, RadarTarget>,
    time: i64,
    targets: Seq<Target>,
    wingmen: Seq<Option<Wingman>>,
    id: i32,
)
    requires
        table.contains_key(id),
        table[id].last_seen < time,
        !sensed(targets, id),
        !linked(wingmen, id),
    ensures
        !after_snapshot(table, time, targets, wingmen).contains_key(id),
{
    lemma_unreported_contact(table, time, targets, wingmen, id);
}

/// With time moving on, the table holds the contacts of the current snapshot
/// and no others: when every contact was last updated before the snapshot's
/// time, the identifiers in the table afterwards are those that the snapshot
/// reports.
pub proof fn lemma_table_mirrors_snapshot(
    table: Map<i32, RadarTarget>,
    time: i64,
    targets: Seq<Target>,
    wingmen: Seq<Option<Wingman>>,
)
    requires
        forall|id: i32| #[trigger] table.contains_key(id) ==> table[id].last_seen < time,
    ensures
        forall|id: i32| #[trigger]
            after_snapshot(table, time, targets, wingmen).contains_key(id) <==> sensed(targets, id)
                || linked(wingmen, id),
{
    assert forall|id: i32| #[trigger]
        after_snapshot(table, time, targets, wingmen).contains_key(id) <==> sensed(targets, id)
            || linked(wingmen, id) by {
        if linked(wingmen, id) {
            lemma_datalink_takes_precedence(table, time, targets, wingmen, id);
        } else if sensed(targets, id) {
            lemma_sensor_only_contact(table, time, targets, wingmen, id);
        } else {
            lemma_unreported_contact(table, time, targets, wingmen, id);
        }
    }
}

/// Datalink precedence: when a datalink report of the snapshot carries `id`,
/// the contact under `id` ends up friendly, sourced from the datalink and
/// unlocked, placed where the last such report puts it. Own-sensor reports
/// with the same identifier, wherever they stand in their list, do not change
/// that.
pub proof fn lemma_datalink_takes_precedence(
    table: Map<i32, RadarTarget>,
    time: i64,
    targets: Seq<Target>,
    wingmen: Seq<Option<Wingman>>,
    id: i32,
)
    requires
        linked(wingmen, id),
    ensures
        after_snapshot(table, time, targets, wingmen).contains_key(id),
        ({
            let contact = after_snapshot(table, time, targets, wingmen)[id];
            &&& contact.iff == Identification::Friendly
            &&& contact.src == Donor::Datalink
            &&& !contact.locked
            &&& contact.last_seen == time
            &&& contact.position == Some(last_linked(wingmen, id).wingmen_position)
        }),
{
    lemma_wingmen_merge(with_targets(swept(table, time), time, targets), time, wingmen, id);
}

/// Lock threshold: when only own-sensor reports of the snapshot carry `id`,
/// the contact under `id` is what the last of them makes of the entry that
/// survived the sweep. In particular it is locked exactly when that report's
/// lock time is above zero, and it keeps the classification it had.
pub proof fn lemma_sensor_only_contact(
    table: Map<i32, RadarTarget>,
    time: i64,
    targets: Seq<Target>,
    wingmen: Seq<Option<Wingman>>,
    id: i32,
)
    requires
        sensed(targets, id),
        !linked(wingmen, id),
    ensures
        lookup(after_snapshot(table, time, targets, wingmen), id) == Some(
            sensor_contact(lookup(swept(table, time), id), time, last_sensed(targets, id)),
        ),
        after_snapshot(table, time, targets, wingmen)[id].locked == (last_sensed(
            targets,
            id,
        ).start_of_lock > 0),
{
    let aged = swept(table, time);
    lemma_targets_merge(aged, time, targets, id);
    lemma_wingmen_leave_others(with_targets(aged, time, targets), time, wingmen, id);
}

/// Merging the same own-sensor report a second time changes nothing in the
/// table but the contact's time of last update.
pub proof fn lemma_repeated_report(
    table: Map<i32, RadarTarget>,
    first: i64,
    second: i64,
    target: Target,
)
    ensures
        ({
            let once = with_target(table, first, target);
            let twice = with_target(once, second, target);
            &&& once.contains_key(target.id)
            &&& once[target.id].position == Some(target.position)
            &&& twice == once.insert(
                target.id,
                RadarTarget { last_seen: second, ..once[target.id] },
            )
        }),
{
}

/// The same own-sensor report in two snapshots in a row: the second snapshot
/// changes nothing in the contact but its time of last update, provided the
/// contact does not expire in between or is classified as unknown. (A contact
/// with another classification that expires in between starts over as
/// unknown.)
pub proof fn lemma_repeated_report_across_snapshots(
    table: Map<i32, RadarTarget>,
    first: i64,
    first_targets: Seq<Target>,
    first_wingmen: Seq<Option<Wingman>>,
    second: i64,
    second_targets: Seq<Target>,
    second_wingmen: Seq<Option<Wingman>>,
    id: i32,
)
    requires
        well_keyed(table),
        sensed(first_targets, id),
        sensed(second_targets, id),
        last_sensed(first_targets, id) == last_sensed(second_targets, id),
        !linked(first_wingmen, id),
        !linked(second_wingmen, id),
        !is_stale(first, second) || after_snapshot(table, first, first_targets, first_wingmen)[id].iff
            == Identification::Unknown,
    ensures
        ({
            let once = after_snapshot(table, first, first_targets, first_wingmen);
            let twice = after_snapshot(once, second, second_targets, second_wingmen);
            &&& once.contains_key(id)
            &&& twice.contains_key(id)
            &&& once[id].position == Some(last_sensed(first_targets, id).position)
            &&& twice[id] == RadarTarget { last_seen: second, ..once[id] }
        }),
{
    let once = after_snapshot(table, first, first_targets, first_wingmen);
    lemma_sensor_only_contact(table, first, first_targets, first_wingmen, id);
    lemma_sensor_only_contact(once, second, second_targets, second_wingmen, id);
    lemma_snapshot_keeps_keys(table, first, first_targets, first_wingmen);
    lemma_last_sensed(first_targets, id);
}

} // verus!
