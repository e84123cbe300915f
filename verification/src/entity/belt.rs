//! The belt: which weapon slot is selected, and how the selection moves.

use vstd::prelude::*;

verus! {

/// A position on the belt. On the player it is the slot selected; on a
/// weapon it is the slot the weapon hangs in.
#[derive(Clone, Copy, Debug, PartialEq, Eq, Structural)]
pub struct Belt(pub i8);

/// What the switch keys ask of the belt in one tick.
#[derive(Clone, Copy, Debug, PartialEq, Eq, Structural)]
pub enum Switch {
    Stay,
    Next,
    Previous,
}

/// The highest slot a belt can select among `slots` weapons. A belt counts
/// in an `i8`, so slots past the 128th are out of its reach. With no weapon
/// at all the belt rests at 0.
pub open spec fn last_slot(slots: int) -> int {
    if slots <= 0 {
        0
    } else if slots > 128 {
        127
    } else {
        slots - 1
    }
}

/// The slot nearest to `index` among `slots` weapons.
pub open spec fn clamp_slot(index: int, slots: int) -> int {
    if index < 0 {
        0
    } else if index > last_slot(slots) {
        last_slot(slots)
    } else {
        index
    }
}

/// The selection after `times` equal commands in a row, each clamped as it
/// is made.
pub open spec fn slot_after_many(index: int, command: Switch, slots: int, times: nat) -> int
    decreases times,
{
    if times == 0 {
        index
    } else {
        slot_after_many(
            clamp_slot(index + command.step(), slots),
            command,
            slots,
            (times - 1) as nat,
        )
    }
}

impl Switch {
    /// How far the command moves the selection before clamping.
    pub open spec fn step(self) -> int {
        match self {
            Switch::Stay => 0,
            Switch::Next => 1,
            Switch::Previous => -1,
        }
    }

    /// The command two switch keys give. When both went down in the same
    /// tick, "next" wins.
    pub open spec fn of(next: bool, previous: bool) -> Switch {
        if next {
            Switch::Next
        } else if previous {
            Switch::Previous
        } else {
            Switch::Stay
        }
    }

    /// Reads the two switch keys.
    pub fn from_keys(next: bool, previous: bool) -> (command: Switch)
        ensures
            command == Switch::of(next, previous),
    {
        if next {
            Switch::Next
        } else if previous {
            Switch::Previous
        } else {
            Switch::Stay
        }
    }
}

impl Belt {
    /// The selection points at one of `slots` weapons.
    pub open spec fn in_range(&self, slots: int) -> bool {
        0 <= self.0 < slots
    }

    /// Moves the selection by one slot as `command` asks and clamps it to
    /// the belt's ends: there is no wrapping round. `Switch::Stay` still
    /// clamps, so a selection that has drifted out of range comes back.
    pub fn switch(&mut self, command: Switch, slots: usize)
        ensures
            final(self).0 == clamp_slot(old(self).0 + command.step(), slots as int),
            1 <= slots <= 128 ==> final(self).in_range(slots as int),
    {
        let last: i16 = if slots == 0 {
            0
        } else if slots > 128 {
            127
        } else {
            (slots - 1) as i16
        };
        let wish: i16 = match command {
            Switch::Stay => self.0 as i16,
            Switch::Next => self.0 as i16 + 1,
            Switch::Previous => self.0 as i16 - 1,
        };
        if wish < 0 {
            self.0 = 0;
        } else if wish > last {
            self.0 = last as i8;
        } else {
            self.0 = wish as i8;
        }
    }
}

/// However often a switch is repeated, the selection stays on the belt:
/// after the first command it lies between 0 and the last slot.
pub proof fn lemma_switching_stays_in_range(index: int, command: Switch, slots: int, times: nat)
    requires
        times >= 1,
    ensures
        0 <= slot_after_many(index, command, slots, times) <= last_slot(slots),
    decreases times,
{
    let first = clamp_slot(index + command.step(), slots);
    if times > 1 {
        lemma_switching_stays_in_range(first, command, slots, (times - 1) as nat);
    } else {
        assert(slot_after_many(first, command, slots, 0) == first);
    }
}

/// From a valid slot, `times` presses of "next" advance the selection by
/// `times`, but never past the last slot: switching on beyond the end
/// leaves it at the end.
pub proof fn lemma_next_stops_at_last(index: int, slots: int, times: nat)
    requires
        0 <= index <= last_slot(slots),
    ensures
        slot_after_many(index, Switch::Next, slots, times) == if index + times <= last_slot(slots) {
            index + times
        } else {
            last_slot(slots)
        },
    decreases times,
{
    if times > 0 {
        lemma_next_stops_at_last(
            clamp_slot(index + 1, slots),
            slots,
            (times - 1) as nat,
        );
    }
}

/// From a valid slot, `times` presses of "previous" move the selection
/// back by `times`, but never below slot 0.
pub proof fn lemma_previous_stops_at_first(index: int, slots: int, times: nat)
    requires
        0 <= index <= last_slot(slots),
    ensures
        slot_after_many(index, Switch::Previous, slots, times) == if index - times >= 0 {
            index - times
        } else {
            0
        },
    decreases times,
{
    if times > 0 {
        lemma_previous_stops_at_first(
            clamp_slot(index - 1, slots),
            slots,
            (times - 1) as nat,
        );
    }
}

} // verus!
