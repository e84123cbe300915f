//! The things that live in the play field and the rules they obey.

pub mod belt;
pub mod bullet;
pub mod gun;
pub mod player;

use vstd::prelude::*;

verus! {

/// Whether input moves the entity.
#[derive(Clone, Copy, Debug, PartialEq, Eq, Structural)]
pub struct Controllable {
    pub is_controllable: bool,
}

impl Default for Controllable {
    /// An entity is not controllable unless it is made so.
    fn default() -> (controllable: Controllable)
        ensures
            !controllable.is_controllable,
    {
        Controllable { is_controllable: false }
    }
}

/// The movement keys that are held down in one tick.
#[derive(Clone, Copy, Debug, PartialEq, Eq, Structural)]
pub struct HeldKeys {
    pub up: bool,
    pub down: bool,
    pub left: bool,
    pub right: bool,
}

/// What drives the velocity on one axis in one tick. The terms apply in
/// the order of the fields: first the pull backward, then the push
/// forward, then the decay.
#[derive(Clone, Copy, Debug, PartialEq, Eq, Structural)]
pub struct AxisDrive {
    /// Subtract the acceleration term.
    pub backward: bool,
    /// Add the acceleration term.
    pub forward: bool,
    /// Let the velocity decay toward zero.
    pub decay: bool,
}

/// What drives the velocity on both axes in one tick.
#[derive(Clone, Copy, Debug, PartialEq, Eq, Structural)]
pub struct Steering {
    pub x: AxisDrive,
    pub y: AxisDrive,
}

impl AxisDrive {
    /// The drive that two opposing keys give: each key that is held
    /// contributes its term, and the velocity decays when the keys cancel,
    /// that is when both are held or neither is.
    pub open spec fn of(negative: bool, positive: bool) -> AxisDrive {
        AxisDrive { backward: negative, forward: positive, decay: negative == positive }
    }

    /// Reads the two keys of one axis.
    pub fn from_keys(negative: bool, positive: bool) -> (drive: AxisDrive)
        ensures
            drive == AxisDrive::of(negative, positive),
    {
        AxisDrive {
            backward: negative,
            forward: positive,
            decay: (negative && positive) || (!negative && !positive),
        }
    }
}

impl HeldKeys {
    /// The steering these keys ask for: left and down pull backward, right
    /// and up push forward.
    pub open spec fn steering(self) -> Steering {
        Steering {
            x: AxisDrive::of(self.left, self.right),
            y: AxisDrive::of(self.down, self.up),
        }
    }
}

/// Turns the held keys into the terms that drive the velocity this tick.
/// An entity that is not controllable gets no steering at all: its
/// velocity is left as it is, without acceleration and without decay.
pub fn control_player(controllable: &Controllable, keys: &HeldKeys) -> (steering: Option<Steering>)
    ensures
        steering == if controllable.is_controllable {
            Some(keys.steering())
        } else {
            None
        },
{
    if !controllable.is_controllable {
        return None;
    }
    Some(
        Steering {
            x: AxisDrive::from_keys(keys.left, keys.right),
            y: AxisDrive::from_keys(keys.down, keys.up),
        },
    )
}

} // verus!
