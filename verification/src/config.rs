//! User settings. The values come from outside; this module holds their shape
//! and their defaults.

use vstd::prelude::*;

verus! {

/// When the head-up text gives way to what is behind it. Angles are degrees in
/// fixed point (see [`crate::data::dcs::ONE`]).
#[derive(Debug, Clone, Copy, PartialEq, Eq, Structural)]
pub struct Occlusion {
    /// Hide the text while the pilot looks through the aircraft's own HUD.
    pub hide_on_hud: bool,
    /// Half the width of the HUD glass as seen from the seat.
    pub hud_horizontal_angle: i64,
    /// Elevation of the upper edge of the HUD glass.
    pub hud_vertical_angle: i64,
    /// Hide the text while the pilot looks down into the cockpit.
    pub hide_in_cockpit: bool,
}

impl Default for Occlusion {
    fn default() -> (occlusion: Self)
        ensures
            occlusion == (Occlusion {
                hide_on_hud: true,
                hud_horizontal_angle: 10_000_000,
                hud_vertical_angle: 5_000_000,
                hide_in_cockpit: true,
            }),
    {
        Occlusion {
            hide_on_hud: true,
            hud_horizontal_angle: 10_000_000,
            hud_vertical_angle: 5_000_000,
            hide_in_cockpit: true,
        }
    }
}

/// Colour and brightness of the overlay.
#[derive(Debug, Clone, Copy, PartialEq, Eq)]
pub struct Appearance {
    /// Red, green, blue.
    pub color: (u8, u8, u8),
    pub brightness: u8,
}

impl Default for Appearance {
    fn default() -> (appearance: Self)
        ensures
            appearance == (Appearance { color: (0, 255, 0), brightness: 128 }),
    {
        Appearance { color: (0, 255, 0), brightness: 128 }
    }
}

/// All settings.
#[derive(Debug, Clone, Copy, PartialEq, Eq)]
pub struct Config {
    pub occlusion: Occlusion,
    pub appearance: Appearance,
    /// Show a fixed sample instead of live telemetry. Never stored.
    pub show_sample_data: bool,
}

impl Default for Config {
    fn default() -> (config: Self)
        ensures
            config.occlusion.hide_on_hud,
            config.occlusion.hud_horizontal_angle == 10_000_000,
            config.occlusion.hud_vertical_angle == 5_000_000,
            config.occlusion.hide_in_cockpit,
            config.appearance == (Appearance { color: (0, 255, 0), brightness: 128 }),
            !config.show_sample_data,
    {
        Config {
            occlusion: Occlusion::default(),
            appearance: Appearance::default(),
            show_sample_data: false,
        }
    }
}

} // verus!
