//! The telemetry snapshot and the records it is made of.

pub mod dcs;

use vstd::prelude::*;

use crate::text::{begins_with, chars_of, spells};

verus! {

/// What the cockpit-parameter text says of the cockpit.
#[derive(Debug, Clone, Copy, PartialEq, Eq, Structural)]
pub struct CockpitParams {
    /// The pilot has left the aircraft, or is leaving it.
    pub ejected: bool,
}

impl Default for CockpitParams {
    fn default() -> (params: Self)
        ensures
            params == (CockpitParams { ejected: false }),
    {
        CockpitParams { ejected: false }
    }
}

/// The system of units an aircraft's instruments use.
#[derive(Debug, Clone, Copy, PartialEq, Eq, Structural)]
pub enum UnitSystem {
    Metric,
    Imperial,
}

/// One frame of simulator state. A snapshot is never changed once it has been
/// decoded; the next one replaces it whole.
#[derive(Debug, Clone)]
pub struct FlightData {
    /// Cockpit parameters as the simulator prints them, one `Key:Value` per
    /// line.
    pub cp_params: Option<String>,
    /// Mission time.
    pub time: i64,
    /// Indicated airspeed, metres per second.
    pub ias: i64,
    pub mach: i64,
    /// Altitude above sea level, metres.
    pub alt: i64,
    /// Altitude above ground, metres.
    pub rad_alt: i64,
    pub pitch: i64,
    pub bank: i64,
    pub yaw: i64,
    /// Angle of attack, degrees.
    pub aoa: i64,
    /// Load factor along each axis.
    pub g: dcs::Vec3,
    /// Placement of the pilot's head camera.
    pub cam: dcs::Position,
    pub engine_data: Option<dcs::EngineData>,
    pub weapons: Option<dcs::WeaponData>,
    /// Own-sensor reports, in the order the radar lists them.
    pub targets: Vec<dcs::Target>,
    /// Datalink slots; an empty slot is a wingman who is not reporting.
    pub wingmen: Vec<Option<dcs::Wingman>>,
    /// Type of the player's aircraft.
    pub unit: String,
}

/// Whether an aircraft of this type has metric instruments: the MiG, Su, Ka
/// and Mi families, the L-39 and the AJS37.
pub open spec fn is_metric(unit: Seq<char>) -> bool {
    ||| "MiG-"@.is_prefix_of(unit)
    ||| "Su-"@.is_prefix_of(unit)
    ||| "Ka-"@.is_prefix_of(unit)
    ||| "Mi-"@.is_prefix_of(unit)
    ||| unit == "L-39"@
    ||| unit == "AJS37"@
}

impl FlightData {
    /// The units in which the player's aircraft shows speed and altitude.
    pub fn get_unit_system(&self) -> (system: UnitSystem)
        ensures
            system == if is_metric(self.unit@) {
                UnitSystem::Metric
            } else {
                UnitSystem::Imperial
            },
    {
        let chars = chars_of(self.unit.as_str());
        let unit = chars.as_slice();
        if begins_with(unit, "MiG-") || begins_with(unit, "Su-") || begins_with(unit, "Ka-")
            || begins_with(unit, "Mi-") || spells(unit, "L-39") || spells(unit, "AJS37") {
            UnitSystem::Metric
        } else {
            UnitSystem::Imperial
        }
    }

    /// A snapshot for show: an F-15 at 350 knots and 22500 feet heading 165
    /// degrees, pulling 1.2 g at Mach 0.56, with four AIM-120C and 180 rounds.
    pub fn sample() -> (data: Self)
        ensures
            data.cp_params is None,
            data.time == 0,
            data.ias == 180_055_601,
            data.mach == 560_000,
            data.alt == 6_857_999_781,
            data.rad_alt == 0,
            data.pitch == 0,
            data.bank == 0,
            data.yaw == 2_879_793,
            data.aoa == 2_800_000,
            data.g == (dcs::Vec3 { x: 0, y: 1_200_000, z: 0 }),
            data.cam == dcs::Position::zero(),
            data.engine_data is None,
            data.weapons matches Some(weapons) && weapons.shells == 180 && (
            weapons.current matches Some(current) && current.count == 4 && current.name@
                == "AIM-120C"@),
            data.targets@ == Seq::<dcs::Target>::empty(),
            data.wingmen@ == Seq::<Option<dcs::Wingman>>::empty(),
            data.unit@ == "F-15"@,
    {
        let mut data = FlightData::default();
        data.ias = 180_055_601;
        data.alt = 6_857_999_781;
        data.yaw = 2_879_793;
        data.g = dcs::Vec3 { x: 0, y: 1_200_000, z: 0 };
        data.mach = 560_000;
        data.aoa = 2_800_000;
        data.unit = String::from_str("F-15");
        data.weapons = Some(
            dcs::WeaponData {
                current: Some(dcs::WeaponDetails { name: String::from_str("AIM-120C"), count: 4 }),
                shells: 180,
            },
        );
        data
    }
}

impl Default for FlightData {
    /// A snapshot with nothing in it: every number zero, every list empty.
    fn default() -> (data: Self)
        ensures
            data.cp_params is None,
            data.time == 0,
            data.ias == 0,
            data.mach == 0,
            data.alt == 0,
            data.rad_alt == 0,
            data.pitch == 0,
            data.bank == 0,
            data.yaw == 0,
            data.aoa == 0,
            data.g == (dcs::Vec3 { x: 0, y: 0, z: 0 }),
            data.cam == dcs::Position::zero(),
            data.engine_data is None,
            data.weapons is None,
            data.targets@ == Seq::<dcs::Target>::empty(),
            data.wingmen@ == Seq::<Option<dcs::Wingman>>::empty(),
            data.unit@ == Seq::<char>::empty(),
    {
        FlightData {
            cp_params: None,
            time: 0,
            ias: 0,
            mach: 0,
            alt: 0,
            rad_alt: 0,
            pitch: 0,
            bank: 0,
            yaw: 0,
            aoa: 0,
            g: dcs::Vec3::default(),
            cam: dcs::Position::default(),
            engine_data: None,
            weapons: None,
            targets: Vec::new(),
            wingmen: Vec::new(),
            unit: String::new(),
        }
    }
}

} // verus!
