//! The contact table: radar detections and datalink reports fused into one set
//! of tracked contacts keyed by identifier.
//!
//! A snapshot is applied in three steps, in this order: contacts that have
//! gone unrefreshed for longer than [`RadarMemory::MAX_AGE`] are dropped, then
//! the own-sensor reports are merged in list order, then the datalink reports.
//! The datalink comes last so that a wingman who also shows up as a radar
//! return ends up classified as friendly.

pub mod laws;

use std::collections::HashMap;
use vstd::prelude::*;

use crate::data::dcs::{Position, Target, Wingman};
use crate::data::FlightData;
use crate::symbols::{Donor, Identification};

verus! {

/// One tracked contact.
#[derive(Debug, Clone, Copy, PartialEq, Eq, Structural)]
pub struct RadarTarget {
    /// Identifier of the report that created the contact.
    pub id: Option<i32>,
    /// Last known placement.
    pub position: Option<Position>,
    pub iff: Identification,
    pub src: Donor,
    /// Mission time of the most recent update.
    pub last_seen: i64,
    /// Whether the most recent own-sensor update reported a radar lock.
    pub locked: bool,
}

/// The table of tracked contacts. Its view is the map from identifier to
/// contact.
#[derive(Debug)]
pub struct RadarMemory {
    pub targets: HashMap<i32, RadarTarget>,
}

impl View for RadarMemory {
    type V = Map<i32, RadarTarget>;

    open spec fn view(&self) -> Map<i32, RadarTarget> {
        self.targets@
    }
}

/// The table's invariant: every contact is filed under the identifier it
/// carries, and has a placement.
pub open spec fn well_keyed(table: Map<i32, RadarTarget>) -> bool {
    forall|id: i32| #[trigger]
        table.contains_key(id) ==> table[id].id == Some(id) && table[id].position is Some
}

/// Whether a contact last updated at `last_seen` has expired by `time`.
pub open spec fn is_stale(last_seen: i64, time: i64) -> bool {
    time - last_seen > RadarMemory::MAX_AGE
}

/// The table without its expired contacts.
pub open spec fn swept(table: Map<i32, RadarTarget>, time: i64) -> Map<i32, RadarTarget> {
    Map::new(
        |id: i32| table.contains_key(id) && !is_stale(table[id].last_seen, time),
        |id: i32| table[id],
    )
}

/// The contact that an own-sensor report leaves behind: a new contact starts
/// out unknown, a known one keeps its identifier and classification.
pub open spec fn sensor_contact(prior: Option<RadarTarget>, time: i64, target: Target)
    -> RadarTarget {
    RadarTarget {
        id: match prior {
            Some(known) => known.id,
            None => Some(target.id),
        },
        position: Some(target.position),
        iff: match prior {
            Some(known) => known.iff,
            None => Identification::Unknown,
        },
        src: Donor::Ownship,
        last_seen: time,
        locked: target.start_of_lock > 0,
    }
}

/// The contact that a datalink report leaves behind: always friendly, never
/// locked.
pub open spec fn datalink_contact(prior: Option<RadarTarget>, time: i64, wingman: Wingman)
    -> RadarTarget {
    RadarTarget {
        id: match prior {
            Some(known) => known.id,
            None => Some(wingman.wingmen_id),
        },
        position: Some(wingman.wingmen_position),
        iff: Identification::Friendly,
        src: Donor::Datalink,
        last_seen: time,
        locked: false,
    }
}

/// The entry of `table` under `id`, if there is one.
pub open spec fn lookup(table: Map<i32, RadarTarget>, id: i32) -> Option<RadarTarget> {
    if table.contains_key(id) {
        Some(table[id])
    } else {
        None
    }
}

/// The table after one own-sensor report.
pub open spec fn with_target(table: Map<i32, RadarTarget>, time: i64, target: Target) -> Map<
    i32,
    RadarTarget,
> {
    table.insert(target.id, sensor_contact(lookup(table, target.id), time, target))
}

/// The table after one datalink report.
pub open spec fn with_wingman(table: Map<i32, RadarTarget>, time: i64, wingman: Wingman) -> Map<
    i32,
    RadarTarget,
> {
    table.insert(
        wingman.wingmen_id,
        datalink_contact(lookup(table, wingman.wingmen_id), time, wingman),
    )
}

/// The table after a list of own-sensor reports, first to last.
pub open spec fn with_targets(table: Map<i32, RadarTarget>, time: i64, targets: Seq<Target>)
    -> Map<i32, RadarTarget>
    decreases targets.len(),
{
    if targets.len() == 0 {
        table
    } else {
        with_target(with_targets(table, time, targets.drop_last()), time, targets.last())
    }
}

/// The table after a list of datalink slots, first to last; an empty slot
/// changes nothing.
pub open spec fn with_wingmen(
    table: Map<i32, RadarTarget>,
    time: i64,
    wingmen: Seq<Option<Wingman>>,
) -> Map<i32, RadarTarget>
    decreases wingmen.len(),
{
    if wingmen.len() == 0 {
        table
    } else {
        let before = with_wingmen(table, time, wingmen.drop_last());
        match wingmen.last() {
            Some(wingman) => with_wingman(before, time, wingman),
            None => before,
        }
    }
}

/// The table after a whole snapshot: sweep, own-sensor reports, datalink
/// reports.
pub open spec fn after_snapshot(
    table: Map<i32, RadarTarget>,
    time: i64,
    targets: Seq<Target>,
    wingmen: Seq<Option<Wingman>>,
) -> Map<i32, RadarTarget> {
    with_wingmen(with_targets(swept(table, time), time, targets), time, wingmen)
}

impl Default for RadarMemory {
    fn default() -> (memory: Self)
        ensures
            memory@ == Map::<i32, RadarTarget>::empty(),
    {
        RadarMemory::new()
    }
}

impl RadarMemory {
    /// How long a contact outlives its last update, in mission time.
    pub const MAX_AGE: i64 = 0;

    /// An empty table.
    pub fn new() -> (memory: Self)
        ensures
            memory@ == Map::<i32, RadarTarget>::empty(),
            well_keyed(memory@),
    {
        RadarMemory { targets: HashMap::new() }
    }

    /// Drops every contact whose last update lies more than `MAX_AGE` before
    /// `time`; the others stay as they are.
    pub fn update(&mut self, time: i64)
        ensures
            final(self)@ == swept(old(self)@, time),
            well_keyed(old(self)@) ==> well_keyed(final(self)@),
    {
        let ghost before = self.targets@;
        let mut ids: Vec<i32> = Vec::new();
        for id in it: self.targets.keys()
            invariant
                ids@ == it.seq().unref().take(it.index()),
                it.seq().unref().to_set() == before.dom(),
                it.index() == it.seq().len() ==> ids@ == it.seq().unref(),
                self.targets@ == before,
        {
            ids.push(*id);
        }
        let mut i: usize = 0;
        while i < ids.len()
            invariant
                i <= ids.len(),
                ids@.to_set() == before.dom(),
                forall|id: i32| #[trigger]
                    self.targets@.contains_key(id) <==> before.contains_key(id) && !(
                        ids@.take(i as int).contains(id) && is_stale(before[id].last_seen, time)),
                forall|id: i32| #[trigger]
                    self.targets@.contains_key(id) ==> self.targets@[id] == before[id],
            decreases ids.len() - i,
        {
            let id = ids[i];
            let expired = match self.targets.get(&id) {
                Some(contact) => time as i128 - contact.last_seen as i128 > Self::MAX_AGE as i128,
                None => false,
            };
            if expired {
                self.targets.remove(&id);
            }
            proof {
                let done = ids@.take(i as int);
                let next = ids@.take(i + 1);
                assert(next == done.push(id));
                assert(forall|other: i32| next.contains(other) <==> done.contains(other) || other == id) by {
                    assert(forall|j: int| 0 <= j < done.len() ==> done[j] == next[j]);
                    assert(next[i as int] == id);
                }
            }
            i = i + 1;
        }
    }

    /// Merges one own-sensor report. A known contact gets the report's
    /// placement and lock state and keeps its classification; an unknown
    /// identifier starts a contact classified as unknown. The contact is
    /// locked exactly when the report's lock time is above zero.
    pub fn add_target(&mut self, time: i64, target: &Target)
        ensures
            final(self)@ == with_target(old(self)@, time, *target),
            final(self)@.contains_key(target.id),
            final(self)@[target.id].locked == (target.start_of_lock > 0),
            well_keyed(old(self)@) ==> well_keyed(final(self)@),
    {
        let contact = match self.targets.get(&target.id) {
            Some(known) => RadarTarget {
                id: known.id,
                position: Some(target.position),
                iff: known.iff,
                src: Donor::Ownship,
                last_seen: time,
                locked: target.start_of_lock > 0,
            },
            None => RadarTarget {
                id: Some(target.id),
                position: Some(target.position),
                iff: Identification::Unknown,
                src: Donor::Ownship,
                last_seen: time,
                locked: target.start_of_lock > 0,
            },
        };
        self.targets.insert(target.id, contact);
    }

    /// Merges one datalink report. The contact becomes friendly and unlocked,
    /// whatever it was before.
    pub fn add_wingman(&mut self, time: i64, wingman: &Wingman)
        ensures
            final(self)@ == with_wingman(old(self)@, time, *wingman),
            final(self)@.contains_key(wingman.wingmen_id),
            final(self)@[wingman.wingmen_id].iff == Identification::Friendly,
            final(self)@[wingman.wingmen_id].src == Donor::Datalink,
            well_keyed(old(self)@) ==> well_keyed(final(self)@),
    {
        let id = match self.targets.get(&wingman.wingmen_id) {
            Some(known) => known.id,
            None => Some(wingman.wingmen_id),
        };
        let contact = RadarTarget {
            id,
            position: Some(wingman.wingmen_position),
            iff: Identification::Friendly,
            src: Donor::Datalink,
            last_seen: time,
            locked: false,
        };
        self.targets.insert(wingman.wingmen_id, contact);
    }

    /// Applies one snapshot: the sweep at the snapshot's time, then its
    /// own-sensor reports in list order, then its datalink reports in list
    /// order.
    pub fn apply_snapshot(&mut self, snapshot: &FlightData)
        ensures
            final(self)@ == after_snapshot(
                old(self)@,
                snapshot.time,
                snapshot.targets@,
                snapshot.wingmen@,
            ),
            well_keyed(old(self)@) ==> well_keyed(final(self)@),
    {
        proof {
            if well_keyed(self@) {
                laws::lemma_snapshot_keeps_keys(
                    self@,
                    snapshot.time,
                    snapshot.targets@,
                    snapshot.wingmen@,
                );
            }
        }
        let time = snapshot.time;
        self.update(time);
        let ghost aged = self@;
        let mut i: usize = 0;
        while i < snapshot.targets.len()
            invariant
                i <= snapshot.targets.len(),
                self@ == with_targets(aged, time, snapshot.targets@.take(i as int)),
            decreases snapshot.targets.len() - i,
        {
            self.add_target(time, &snapshot.targets[i]);
            proof {
                let next = snapshot.targets@.take(i + 1);
                assert(next.drop_last() == snapshot.targets@.take(i as int));
            }
            i = i + 1;
        }
        assert(snapshot.targets@.take(i as int) == snapshot.targets@);
        let ghost sensed = self@;
        let mut j: usize = 0;
        while j < snapshot.wingmen.len()
            invariant
                j <= snapshot.wingmen.len(),
                self@ == with_wingmen(sensed, time, snapshot.wingmen@.take(j as int)),
            decreases snapshot.wingmen.len() - j,
        {
            match &snapshot.wingmen[j] {
                Some(wingman) => self.add_wingman(time, wingman),
                None => {},
            }
            proof {
                let next = snapshot.wingmen@.take(j + 1);
                assert(next.drop_last() == snapshot.wingmen@.take(j as int));
            }
            j = j + 1;
        }
        assert(snapshot.wingmen@.take(j as int) == snapshot.wingmen@);
    }
}

} // verus!
