//! Contact fusion and head-up display rules for a flight simulator overlay.
//!
//! The overlay mirrors the simulator's telemetry into a helmet-mounted
//! display: flight data as text, and radar and datalink contacts as symbols.
//! This library holds what is decided and computed on the way: the table of
//! tracked contacts ([`radar`]), when the text gives way to the cockpit
//! ([`occlusion`]), what the cockpit parameters say ([`cockpit`]), what a frame
//! shows ([`hud`]), which points are shown ([`projection`]), and the text work
//! of the installer ([`installer`]). Reading sockets and files, the arithmetic
//! of rotations and perspective, and drawing are the caller's.
//!
//! Numbers that the simulator gives as reals are held in fixed point, as an
//! `i64` that counts millionths ([`data::dcs::ONE`]). All comparisons and sums
//! on them are exact.

pub mod cockpit;
pub mod config;
pub mod data;
pub mod hud;
pub mod installer;
pub mod occlusion;
pub mod pattern;
pub mod projection;
pub mod radar;
pub mod symbols;
pub mod terrain;
pub mod text;
