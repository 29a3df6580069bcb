//! Key state: which physical keys are currently held, and which key does what.

use std::collections::HashMap;
use std::hash::BuildHasher;
use vstd::prelude::*;
use vstd::std_specs::hash::*;

verus! {

/// The physical key codes that the viewer listens to. The codes depend on the
/// platform, so the caller supplies them.
#[derive(Clone, Copy, Debug, PartialEq, Eq, Structural)]
pub struct KeyBindings {
    /// Moves the camera forward.
    pub forward: u32,
    /// Moves the camera back.
    pub back: u32,
    /// Moves the camera to its left.
    pub left: u32,
    /// Moves the camera to its right.
    pub right: u32,
    /// Moves the camera up.
    pub up: u32,
    /// Selects the run speed while held.
    pub run: u32,
    /// Prints the camera pose.
    pub print_pose: u32,
    /// Releases the pointer.
    pub release: u32,
    /// Writes out the GPU timings.
    pub dump_profile: u32,
}

/// Whether `map` records `key` as held.
pub open spec fn held(map: Map<u32, bool>, key: u32) -> bool {
    map.contains_key(key) && map[key]
}

/// Reports whether `key` is held: it has an entry in `map` and the entry is
/// `true`. A key that was never seen counts as released.
pub fn button_pressed<Hash: BuildHasher>(map: &HashMap<u32, bool, Hash>, key: u32) -> (pressed:
    bool)
    ensures
        builds_valid_hashers::<Hash>() ==> pressed == held(map@, key),
{
    broadcast use vstd::std_specs::hash::group_hash_axioms;

    match map.get(&key) {
        Some(b) => *b,
        None => false,
    }
}

} // verus!
