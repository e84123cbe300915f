//! The camera: locked onto the player, without smoothing.

use vstd::prelude::*;

verus! {

/// Where the camera goes this tick: onto the player if there is one, else
/// back home. The position type is the caller's.
pub fn camera_follow_player<P>(player: Option<P>, home: P) -> (target: P)
    ensures
        target == match player {
            Some(position) => position,
            None => home,
        },
{
    match player {
        Some(position) => position,
        None => home,
    }
}

} // verus!
