//! Raw telemetry records as the simulator exports them.
//!
//! Every quantity is a fixed-point number: an `i64` that counts millionths of
//! the unit (see [`ONE`]). Lengths are metres, times are seconds of mission
//! time, angles are radians unless a field says otherwise.

use vstd::prelude::*;

verus! {

/// The fixed-point representation of the number one.
pub const ONE: i64 = 1_000_000;

/// A point in space, or one axis of an orientation basis.
#[derive(Debug, Clone, Copy, PartialEq, Eq, Structural)]
pub struct Vec3 {
    pub x: i64,
    pub y: i64,
    pub z: i64,
}

impl Default for Vec3 {
    fn default() -> (v: Self)
        ensures
            v == (Vec3 { x: 0, y: 0, z: 0 }),
    {
        Vec3 { x: 0, y: 0, z: 0 }
    }
}

/// Placement of an object: three orientation axes (forward, up, right) and the
/// world position. The axes are meant to be orthonormal; nothing checks it.
#[derive(Debug, Clone, Copy, PartialEq, Eq, Structural)]
pub struct Position {
    /// Orientation x-vector (forward)
    pub x: Vec3,
    /// Orientation y-vector (up)
    pub y: Vec3,
    /// Orientation z-vector (right)
    pub z: Vec3,
    /// World coordinates
    pub p: Vec3,
}

impl Position {
    /// The placement whose every component is zero.
    pub open spec fn zero() -> Position {
        let o = Vec3 { x: 0, y: 0, z: 0 };
        Position { x: o, y: o, z: o, p: o }
    }
}

impl Default for Position {
    fn default() -> (p: Self)
        ensures
            p == Position::zero(),
    {
        let o = Vec3 { x: 0, y: 0, z: 0 };
        Position { x: o, y: o, z: o, p: o }
    }
}

/// Engine speed, left and right.
#[derive(Debug, Clone, Copy, PartialEq, Eq, Structural)]
pub struct EngineDetails {
    pub left: i64,
    pub right: i64,
}

/// Engine and fuel state.
#[derive(Debug, Clone, Copy, PartialEq, Eq, Structural)]
pub struct EngineData {
    pub rpm: EngineDetails,
    pub fuel_internal: i64,
    pub fuel_external: i64,
}

impl EngineData {
    /// Fuel in the internal and external tanks together. A sum beyond the
    /// range of the representation stops at the nearest end of the range.
    pub fn total_fuel(&self) -> (total: i64)
        ensures
            total == if self.fuel_internal + self.fuel_external > i64::MAX {
                i64::MAX as int
            } else if self.fuel_internal + self.fuel_external < i64::MIN {
                i64::MIN as int
            } else {
                self.fuel_internal + self.fuel_external
            },
    {
        match self.fuel_internal.checked_add(self.fuel_external) {
            Some(total) => total,
            None => if self.fuel_internal > 0 {
                i64::MAX
            } else {
                i64::MIN
            },
        }
    }
}

/// The selected weapon.
#[derive(Debug, Clone, PartialEq, Eq)]
pub struct WeaponDetails {
    pub name: String,
    pub count: i32,
}

/// The weapon loadout.
#[derive(Debug, Clone, PartialEq, Eq)]
pub struct WeaponData {
    pub current: Option<WeaponDetails>,
    /// Rounds left in the gun.
    pub shells: i32,
}

/// A detection by the aircraft's own radar.
#[derive(Debug, Clone, Copy, PartialEq, Eq, Structural)]
pub struct Target {
    /// Identifier within the simulator session; other sources may reuse it.
    pub id: i32,
    pub position: Position,
    /// Range from the own aircraft.
    pub distance: i64,
    /// Mission time at which the radar lock began; zero or below when the
    /// contact is not locked.
    pub start_of_lock: i64,
}

/// A friendly aircraft reported over the datalink.
#[derive(Debug, Clone, Copy, PartialEq, Eq, Structural)]
pub struct Wingman {
    pub wingmen_id: i32,
    pub wingmen_position: Position,
}

} // verus!
