//! Classification and provenance of a tracked contact.

use vstd::prelude::*;

verus! {

/// How a contact is classified. The classification is a policy decision of the
/// tracker, never something a sensor measured.
#[derive(Debug, Clone, Copy, PartialEq, Eq, Structural)]
pub enum Identification {
    Hostile,
    Friendly,
    Unknown,
}

/// The source that most recently updated a contact.
#[derive(Debug, Clone, Copy, PartialEq, Eq, Structural)]
pub enum Donor {
    /// The aircraft's own radar.
    Ownship,
    /// A report shared over the datalink by a wingman.
    Datalink,
}

} // verus!
