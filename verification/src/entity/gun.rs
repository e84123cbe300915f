//! Magazines and reserves: the bookkeeping of rounds.

use vstd::prelude::*;

verus! {

/// The ordnance a gun fires. The tag decides how fast a projectile travels
/// and how far it gets before it is dropped.
#[derive(Clone, Copy, Debug, PartialEq, Eq, Structural)]
pub enum BulletType {
    Basic,
    Rocket,
}

/// A gun: rounds in the magazine, the magazine's size, and what it fires.
#[derive(Clone, Copy, Debug, PartialEq, Eq, Structural)]
pub struct Gun(pub u32, pub u32, pub BulletType);

/// The reserve a gun reloads from.
#[derive(Clone, Copy, Debug, PartialEq, Eq, Structural)]
pub struct Ammo(pub u32);

/// The smaller of two counts.
pub open spec fn least(a: int, b: int) -> int {
    if a <= b {
        a
    } else {
        b
    }
}

impl Ammo {
    /// Takes `amount` rounds out of the reserve, or all of them if there
    /// are fewer.
    pub fn remove(&mut self, amount: u32)
        ensures
            final(self).0 == old(self).0 - least(amount as int, old(self).0 as int),
    {
        if amount < self.0 {
            self.0 = self.0 - amount;
        } else {
            self.0 = 0;
        }
    }
}

impl Gun {
    /// A magazine never holds more than its size.
    pub open spec fn wf(&self) -> bool {
        self.0 <= self.1
    }

    /// Free places in the magazine.
    pub open spec fn room(&self) -> int {
        if self.0 <= self.1 {
            self.1 - self.0
        } else {
            0
        }
    }

    /// The rounds one reload moves from `ammo` into this gun: as many as
    /// the magazine has room for, or the whole reserve if that is less.
    pub open spec fn refill(&self, ammo: Ammo) -> int {
        least(ammo.0 as int, self.room())
    }

    /// Moves rounds from the reserve into the magazine until the magazine
    /// is full or the reserve is empty. Nothing else about the gun changes.
    pub fn reload(&mut self, ammo: &mut Ammo)
        ensures
            final(self).0 == old(self).0 + old(self).refill(*old(ammo)),
            final(self).1 == old(self).1,
            final(self).2 == old(self).2,
            final(ammo).0 == old(ammo).0 - old(self).refill(*old(ammo)),
            final(self).0 + final(ammo).0 == old(self).0 + old(ammo).0,
            old(self).wf() ==> final(self).wf(),
    {
        let room: u32 = if self.0 <= self.1 {
            self.1 - self.0
        } else {
            0
        };
        let amount: u32 = if ammo.0 < room {
            ammo.0
        } else {
            room
        };
        ammo.remove(amount);
        self.0 = self.0 + amount;
    }
}

} // verus!
