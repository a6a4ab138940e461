//! Fixed game configuration: the grid extent and the two player presets.
//! The host preset belongs to the side that listens and generates the seed;
//! the guest preset to the side that connects. Each side plays one preset
//! and renders the other for its peer, so both screens show the same round.

use vstd::prelude::*;
use crate::direction::Direction;

verus! {

/// The grid is `GRID_SIZE` by `GRID_SIZE` cells, 0-indexed.
pub const GRID_SIZE: i32 = 30;

/// A player's fixed starting state: where its snake begins and which way it
/// faces. Segment colors are derived by the renderer from the segment's
/// ordinal index and carry no simulation meaning, so they are not part of
/// the preset here.
#[derive(Clone, Copy, Debug, PartialEq, Eq)]
pub struct PlayerPreset {
    pub position: (i32, i32),
    pub direction: Direction,
}

/// The preset of the listening side.
pub open spec fn spec_host_preset() -> PlayerPreset {
    PlayerPreset { position: (15, 10), direction: Direction::Right }
}

/// The preset of the connecting side.
pub open spec fn spec_guest_preset() -> PlayerPreset {
    PlayerPreset { position: (15, 20), direction: Direction::Left }
}

/// Builds the listening side's preset: start at (15, 10), facing right.
pub fn host_preset() -> (p: PlayerPreset)
    ensures
        p == spec_host_preset(),
{
    PlayerPreset { position: (15, 10), direction: Direction::Right }
}

/// Builds the connecting side's preset: start at (15, 20), facing left.
pub fn guest_preset() -> (p: PlayerPreset)
    ensures
        p == spec_guest_preset(),
{
    PlayerPreset { position: (15, 20), direction: Direction::Left }
}

} // verus!
