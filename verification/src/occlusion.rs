//! The visibility policy: whether the head-up text is suppressed for the
//! direction in which the pilot is looking.
//!
//! The thresholds are an empirical picture of where the HUD glass, the front
//! dash and the side consoles sit in one aircraft's canopy. They are not
//! derived from any model of the cockpit.

use vstd::prelude::*;

use crate::config::{Config, Occlusion};
use crate::data::dcs::ONE;
use crate::data::FlightData;

verus! {

/// The size of `v`.
pub open spec fn magnitude(v: int) -> int {
    if v < 0 {
        -v
    } else {
        v
    }
}

/// Looking through the HUD glass: below its upper edge and within its width.
pub open spec fn on_hud(pitch: int, yaw: int, occlusion: Occlusion) -> bool {
    pitch < occlusion.hud_vertical_angle && magnitude(yaw) < occlusion.hud_horizontal_angle
}

/// Looking at the front dash: more than 20 degrees down, and
/// `|yaw| / 1.5 + pitch` below minus 10 degrees. The inequality is stated
/// with both sides tripled, which keeps it among the integers.
pub open spec fn on_front_dash(pitch: int, yaw: int) -> bool {
    pitch < -20 * ONE && 2 * magnitude(yaw) + 3 * pitch < -30 * ONE
}

/// Looking at the side consoles: more than 45 degrees down.
pub open spec fn on_side_consoles(pitch: int) -> bool {
    pitch < -45 * ONE
}

/// The policy: any of the three regions hides the text, each only where its
/// setting is switched on.
pub open spec fn occluded(pitch: int, yaw: int, occlusion: Occlusion) -> bool {
    ||| occlusion.hide_on_hud && on_hud(pitch, yaw, occlusion)
    ||| occlusion.hide_in_cockpit && on_front_dash(pitch, yaw)
    ||| occlusion.hide_in_cockpit && on_side_consoles(pitch)
}

impl FlightData {
    /// Whether the head-up text is to be suppressed. `camera_angles` is the
    /// direction of the pilot's head relative to the airframe as pitch, yaw
    /// and roll, in degrees; roll plays no part.
    pub fn is_occluded(camera_angles: (i64, i64, i64), config: &Config) -> (hidden: bool)
        ensures
            hidden == occluded(camera_angles.0 as int, camera_angles.1 as int, config.occlusion),
    {
        let pitch: i128 = camera_angles.0 as i128;
        let yaw: i128 = camera_angles.1 as i128;
        let yaw_abs: i128 = if yaw < 0 {
            -yaw
        } else {
            yaw
        };
        let occlusion = config.occlusion;
        let one: i128 = ONE as i128;
        (occlusion.hide_on_hud && pitch < occlusion.hud_vertical_angle as i128 && yaw_abs
            < occlusion.hud_horizontal_angle as i128) || (occlusion.hide_in_cockpit && pitch < -20
            * one && 2 * yaw_abs + 3 * pitch < -30 * one) || (occlusion.hide_in_cockpit && pitch
            < -45 * one)
    }
}

/// With both settings off nothing is ever hidden.
pub proof fn lemma_policy_off(pitch: int, yaw: int, occlusion: Occlusion)
    requires
        !occlusion.hide_on_hud,
        !occlusion.hide_in_cockpit,
    ensures
        !occluded(pitch, yaw, occlusion),
{
}

/// The policy does not tell left from right.
pub proof fn lemma_policy_symmetric(pitch: int, yaw: int, occlusion: Occlusion)
    ensures
        occluded(pitch, -yaw, occlusion) == occluded(pitch, yaw, occlusion),
{
}

} // verus!
