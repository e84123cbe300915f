//! Projectiles in flight. A projectile keeps the heading it was fired
//! with, so its distance from the muzzle is the number of steps flown
//! times the length of one step; the heading itself never enters here.

use vstd::prelude::*;
use crate::entity::gun::BulletType;

verus! {

/// A projectile: the drive it was fired with, its type, and the steps it
/// has flown so far.
///
/// The drive is the signed reach of the weapon at the moment of firing.
/// Its sign says which way the firer faced. Its size scales every step, so
/// a weapon held further out throws its projectiles faster.
#[derive(Clone, Copy, Debug, PartialEq, Eq, Structural)]
pub struct Bullet(pub i16, pub BulletType, pub u32);

impl BulletType {
    /// Ground covered per step by a projectile of drive 1.
    pub open spec fn spec_speed(self) -> int {
        match self {
            BulletType::Basic => 50,
            BulletType::Rocket => 10,
        }
    }

    /// The distance from the muzzle past which a projectile is dropped.
    pub open spec fn spec_max_range(self) -> int {
        match self {
            BulletType::Basic => 1000,
            BulletType::Rocket => 4000,
        }
    }

    /// The distance from the muzzle past which a projectile is dropped.
    pub fn max_range(self) -> (range: u32)
        ensures
            range == self.spec_max_range(),
    {
        match self {
            BulletType::Basic => 1000,
            BulletType::Rocket => 4000,
        }
    }
}

impl Bullet {
    /// Ground covered per step by a projectile of this type and drive 1.
    pub open spec fn spec_speed(&self) -> int {
        self.1.spec_speed()
    }

    /// Ground covered per step by a projectile of this type and drive 1.
    pub fn speed(&self) -> (speed: u32)
        ensures
            speed == self.spec_speed(),
    {
        match self.1 {
            BulletType::Basic => 50,
            BulletType::Rocket => 10,
        }
    }

    /// The signed length of one step: drive times speed. Along the heading
    /// `h` a step moves the projectile by `stride * cos h` on one axis and
    /// `stride * sin h` on the other.
    pub open spec fn spec_stride(&self) -> int {
        self.0 * self.spec_speed()
    }

    /// The signed length of one step.
    pub fn stride(&self) -> (stride: i32)
        ensures
            stride == self.spec_stride(),
    {
        let drive: i32 = self.0 as i32;
        match self.1 {
            BulletType::Basic => drive * 50,
            BulletType::Rocket => drive * 10,
        }
    }

    /// How far the projectile is from where it was fired.
    pub open spec fn spec_distance(&self) -> int {
        if self.spec_stride() >= 0 {
            self.2 * self.spec_stride()
        } else {
            self.2 * (-self.spec_stride())
        }
    }

    /// How far the projectile is from where it was fired.
    pub fn distance(&self) -> (distance: u64)
        ensures
            distance == self.spec_distance(),
    {
        let stride: i32 = self.stride();
        let length: u64 = if stride >= 0 {
            stride as u64
        } else {
            (-stride) as u64
        };
        assert(self.2 * length <= 0xffff_ffff * 1_638_400) by (nonlinear_arith)
            requires
                0 <= self.2 <= 0xffff_ffff,
                0 <= length <= 1_638_400,
        ;
        self.2 as u64 * length
    }

    /// The projectile has gone beyond its type's range and is to be
    /// dropped. One that is exactly at the range is still in flight.
    pub open spec fn spec_expired(&self) -> bool {
        self.spec_distance() > self.1.spec_max_range()
    }

    /// The projectile has gone beyond its type's range.
    #[verifier::when_used_as_spec(spec_expired)]
    pub fn expired(&self) -> (gone: bool)
        ensures
            gone == self.spec_expired(),
    {
        self.distance() > self.1.max_range() as u64
    }

    /// The projectile one step further on. The step counter stops at its
    /// top rather than wrapping.
    pub open spec fn advanced(self) -> Bullet {
        Bullet(
            self.0,
            self.1,
            if self.2 < u32::MAX {
                (self.2 + 1) as u32
            } else {
                self.2
            },
        )
    }

    /// Flies one step. Drive and type stay as they were at firing, and the
    /// projectile is never nearer to the muzzle than before.
    pub fn advance(&mut self)
        ensures
            *final(self) == old(self).advanced(),
            final(self).spec_distance() >= old(self).spec_distance(),
    {
        proof {
            lemma_distance_never_shrinks(*self);
        }
        if self.2 < u32::MAX {
            self.2 = self.2 + 1;
        }
    }
}

/// Every projectile one step further on.
pub open spec fn flown(bullets: Seq<Bullet>) -> Seq<Bullet> {
    bullets.map_values(|b: Bullet| b.advanced())
}

/// Those projectiles that are still within range, in their old order.
pub open spec fn in_flight(bullets: Seq<Bullet>) -> Seq<Bullet> {
    bullets.filter(|b: Bullet| !b.spec_expired())
}

/// One tick of flight for all projectiles: each flies one step, and those
/// that are then beyond their range are dropped. The rest keep their order.
pub fn move_bullet(bullets: &mut Vec<Bullet>)
    ensures
        final(bullets)@ == in_flight(flown(old(bullets)@)),
{
    let mut kept: Vec<Bullet> = Vec::new();
    let mut i: usize = 0;
    while i < bullets.len()
        invariant
            i <= bullets.len(),
            *bullets == *old(bullets),
            kept@ == in_flight(flown(bullets@.take(i as int))),
        decreases bullets.len() - i,
    {
        let mut bullet: Bullet = bullets[i];
        bullet.advance();
        proof {
            let seen = bullets@.take(i as int);
            bullets@.lemma_take_succ_push(i as int);
            seen.lemma_push_map_commute(|b: Bullet| b.advanced(), bullets@[i as int]);
            flown(seen).lemma_filter_push(bullet, |b: Bullet| !b.spec_expired());
        }
        if !bullet.expired() {
            kept.push(bullet);
        }
        i = i + 1;
    }
    proof {
        bullets@.lemma_take_len();
    }
    *bullets = kept;
}

/// The projectile after `steps` further steps.
pub open spec fn after_steps(bullet: Bullet, steps: nat) -> Bullet
    decreases steps,
{
    if steps == 0 {
        bullet
    } else {
        after_steps(bullet, (steps - 1) as nat).advanced()
    }
}

/// A step never brings a projectile nearer to where it was fired.
pub proof fn lemma_distance_never_shrinks(bullet: Bullet)
    ensures
        bullet.advanced().spec_distance() >= bullet.spec_distance(),
{
    let stride = bullet.spec_stride();
    let length = if stride >= 0 {
        stride
    } else {
        -stride
    };
    assert(bullet.advanced().2 * length >= bullet.2 * length) by (nonlinear_arith)
        requires
            bullet.advanced().2 >= bullet.2,
            length >= 0,
    ;
}

/// A projectile that is beyond its range stays beyond it: the first tick
/// on which it is found expired is the only one on which it can be dropped.
pub proof fn lemma_expired_stays_expired(bullet: Bullet)
    requires
        bullet.spec_expired(),
    ensures
        bullet.advanced().spec_expired(),
{
    lemma_distance_never_shrinks(bullet);
}

/// Tick over tick a projectile only gets further from where it was fired:
/// its distance after more steps is never less than after fewer.
pub proof fn lemma_distance_grows_with_steps(bullet: Bullet, fewer: nat, more: nat)
    requires
        fewer <= more,
    ensures
        after_steps(bullet, fewer).spec_distance() <= after_steps(bullet, more).spec_distance(),
    decreases more,
{
    if fewer < more {
        lemma_distance_grows_with_steps(bullet, fewer, (more - 1) as nat);
        lemma_distance_never_shrinks(after_steps(bullet, (more - 1) as nat));
    }
}

/// A projectile that is within range after some steps was within range
/// after every smaller number of steps: it cannot have been dropped on the
/// way, and the first step that takes it beyond its range is the step on
/// which it goes.
pub proof fn lemma_in_range_all_the_way(bullet: Bullet, fewer: nat, more: nat)
    requires
        fewer <= more,
        !after_steps(bullet, more).spec_expired(),
    ensures
        !after_steps(bullet, fewer).spec_expired(),
    decreases more,
{
    lemma_distance_grows_with_steps(bullet, fewer, more);
    lemma_steps_keep_type(bullet, fewer);
    lemma_steps_keep_type(bullet, more);
}

/// Steps change neither drive nor type.
pub proof fn lemma_steps_keep_type(bullet: Bullet, steps: nat)
    ensures
        after_steps(bullet, steps).0 == bullet.0,
        after_steps(bullet, steps).1 == bullet.1,
    decreases steps,
{
    if steps > 0 {
        lemma_steps_keep_type(bullet, (steps - 1) as nat);
    }
}

/// What a sweep keeps: the projectile that was at place `i` is still in
/// the field, one step further on, exactly if that step left it within
/// range; and nothing is in the field that was not there before.
pub proof fn lemma_sweep_keeps_the_in_range(bullets: Seq<Bullet>, i: int)
    requires
        0 <= i < bullets.len(),
    ensures
        in_flight(flown(bullets)).contains(bullets[i].advanced()) <==> !bullets[i].advanced().spec_expired(),
        forall|k: int|
            0 <= k < in_flight(flown(bullets)).len() ==> {
                let kept = #[trigger] in_flight(flown(bullets))[k];
                &&& !kept.spec_expired()
                &&& exists|j: int| 0 <= j < bullets.len() && kept == bullets[j].advanced()
            },
        in_flight(flown(bullets)).len() <= bullets.len(),
{
    let moved = flown(bullets);
    let alive = |b: Bullet| !b.spec_expired();
    moved.lemma_filter_len(alive);
    assert(moved[i] == bullets[i].advanced());
    if !bullets[i].advanced().spec_expired() {
        moved.lemma_filter_contains(alive, i);
    }
    assert forall|k: int| 0 <= k < in_flight(moved).len() implies {
        let kept = #[trigger] in_flight(moved)[k];
        &&& !kept.spec_expired()
        &&& exists|j: int| 0 <= j < bullets.len() && kept == bullets[j].advanced()
    } by {
        let kept = in_flight(moved)[k];
        moved.lemma_filter_pred(alive, k);
        assert(in_flight(moved).contains(kept));
        moved.lemma_filter_contains_rev(alive, kept);
        let j = choose|j: int| 0 <= j < moved.len() && moved[j] == kept;
        assert(kept == bullets[j].advanced());
    }
    if in_flight(moved).contains(bullets[i].advanced()) {
        let k = choose|k: int|
            0 <= k < in_flight(moved).len() && in_flight(moved)[k] == bullets[i].advanced();
        assert(!in_flight(moved)[k].spec_expired());
    }
}

} // verus!
