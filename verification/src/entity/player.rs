//! The player and the weapons on the belt: switching, reloading, aiming
//! and firing.

use vstd::prelude::*;
use crate::entity::belt::{clamp_slot, Belt, Switch};
use crate::entity::bullet::Bullet;
use crate::entity::gun::{Ammo, BulletType, Gun};
use crate::entity::Controllable;

verus! {

/// One weapon on the belt.
#[derive(Clone, Copy, Debug, PartialEq, Eq, Structural)]
pub struct Weapon {
    pub gun: Gun,
    pub ammo: Ammo,
    /// The slot the weapon hangs in.
    pub belt: Belt,
    /// The weapon is the one in use.
    pub in_hand: bool,
    /// The weapon is drawn on screen.
    pub is_visible: bool,
    /// How far in front of the firer the weapon is held.
    pub reach: u8,
    /// The weapon is held to the firer's left and drawn mirrored.
    pub flip_x: bool,
}

/// What a press of the reload key came to.
#[derive(Clone, Copy, Debug, PartialEq, Eq, Structural)]
pub enum Reload {
    /// The key was not pressed, or no weapon is in hand.
    Idle,
    /// The reserve is empty: nothing can be loaded.
    Dry,
    /// The magazine was filled as far as the reserve allowed.
    Loaded,
}

/// What a pull of the trigger came to.
#[derive(Clone, Copy, Debug, PartialEq, Eq, Structural)]
pub enum Shot {
    /// The trigger was not pulled, or no weapon is in hand.
    Held,
    /// A round left the magazine: this projectile is to be spawned at the
    /// muzzle.
    Fired(Bullet),
    /// The magazine was empty, so the pull loaded it from the reserve.
    Reloaded,
    /// Magazine and reserve are both empty.
    Dry,
}

/// The player: the slot selected on the belt, the weapons carried, and
/// which way the player faces.
#[derive(Clone, Debug)]
pub struct Player {
    pub belt: Belt,
    pub controllable: Controllable,
    /// The player faces left and is drawn mirrored.
    pub flip_x: bool,
    pub guns: Vec<Weapon>,
}

/// A player as contracts see it: the weapons as a sequence.
pub struct PlayerView {
    pub belt: Belt,
    pub controllable: Controllable,
    pub flip_x: bool,
    pub guns: Seq<Weapon>,
}

impl View for Player {
    type V = PlayerView;

    open spec fn view(&self) -> PlayerView {
        PlayerView {
            belt: self.belt,
            controllable: self.controllable,
            flip_x: self.flip_x,
            guns: self.guns@,
        }
    }
}

impl Weapon {
    /// The magazine holds no more than its size.
    pub open spec fn wf(&self) -> bool {
        self.gun.wf()
    }

    /// The weapon after a reload: rounds have moved from the reserve into
    /// the magazine, as many as fit and are there. With an empty reserve or
    /// a full magazine this is the weapon unchanged.
    pub open spec fn reloaded(self) -> Weapon {
        Weapon {
            gun: Gun((self.gun.0 + self.gun.refill(self.ammo)) as u32, self.gun.1, self.gun.2),
            ammo: Ammo((self.ammo.0 - self.gun.refill(self.ammo)) as u32),
            ..self
        }
    }

    /// What the reload key reports for this weapon.
    pub open spec fn reload_signal(self) -> Reload {
        if self.ammo.0 == 0 {
            Reload::Dry
        } else {
            Reload::Loaded
        }
    }

    /// All the rounds the weapon has, loaded and in reserve.
    pub open spec fn rounds(self) -> int {
        self.gun.0 + self.ammo.0
    }

    /// The reach with the sign of the side the weapon is held on.
    pub open spec fn drive(self) -> int {
        if self.flip_x {
            -(self.reach as int)
        } else {
            self.reach as int
        }
    }

    /// The projectile this weapon fires: its drive is the weapon's, its
    /// type the gun's, and it has not flown yet.
    pub open spec fn bullet(self) -> Bullet {
        Bullet(self.drive() as i16, self.gun.2, 0)
    }

    /// The weapon after a pull of the trigger. With rounds in the magazine
    /// one of them is spent. With an empty magazine the pull is a reload
    /// instead.
    pub open spec fn triggered(self) -> Weapon {
        if self.gun.0 == 0 {
            self.reloaded()
        } else {
            Weapon { gun: Gun((self.gun.0 - 1) as u32, self.gun.1, self.gun.2), ..self }
        }
    }

    /// What a pull of the trigger comes to for this weapon.
    pub open spec fn shot(self) -> Shot {
        if self.gun.0 > 0 {
            Shot::Fired(self.bullet())
        } else if self.ammo.0 > 0 {
            Shot::Reloaded
        } else {
            Shot::Dry
        }
    }

    /// The weapon brought in line with the slot selected: in hand and
    /// visible if it hangs in that slot, neither if it does not.
    pub open spec fn reconciled(self, selected: Belt) -> Weapon {
        Weapon { in_hand: self.belt == selected, is_visible: self.belt == selected, ..self }
    }

    /// The weapon turned to one side.
    pub open spec fn faced(self, left: bool) -> Weapon {
        Weapon { flip_x: left, ..self }
    }

    /// Reloads the weapon from its reserve and says whether there was
    /// anything to load. With an empty reserve nothing changes.
    pub fn reload(&mut self) -> (signal: Reload)
        ensures
            *final(self) == old(self).reloaded(),
            signal == old(self).reload_signal(),
            final(self).gun.0 + final(self).ammo.0 == old(self).gun.0 + old(self).ammo.0,
            old(self).wf() ==> final(self).wf(),
    {
        if self.ammo.0 == 0 {
            return Reload::Dry;
        }
        self.gun.reload(&mut self.ammo);
        Reload::Loaded
    }

    /// Pulls the trigger. With rounds in the magazine one is spent and the
    /// projectile to spawn is handed back. With an empty magazine no
    /// projectile is spawned: the pull reloads the weapon instead, or does
    /// nothing at all if the reserve is empty too.
    pub fn pull_trigger(&mut self) -> (shot: Shot)
        ensures
            *final(self) == old(self).triggered(),
            shot == old(self).shot(),
            old(self).gun.0 == 0 ==> !(shot is Fired) && *final(self) == old(self).reloaded(),
            old(self).wf() ==> final(self).wf(),
    {
        if self.gun.0 == 0 {
            return match self.reload() {
                Reload::Loaded => Shot::Reloaded,
                _ => Shot::Dry,
            };
        }
        self.gun.0 = self.gun.0 - 1;
        let reach: i16 = self.reach as i16;
        let drive: i16 = if self.flip_x {
            -reach
        } else {
            reach
        };
        Shot::Fired(Bullet(drive, self.gun.2, 0))
    }
}

impl PlayerView {
    /// Every magazine holds no more than its size.
    pub open spec fn wf(self) -> bool {
        forall|i: int| 0 <= i < self.guns.len() ==> (#[trigger] self.guns[i]).wf()
    }

    /// Weapon `i` is in hand and no other weapon is.
    pub open spec fn holds_alone(self, i: int) -> bool {
        &&& 0 <= i < self.guns.len()
        &&& self.guns[i].in_hand
        &&& forall|j: int| 0 <= j < self.guns.len() && (#[trigger] self.guns[j]).in_hand ==> j == i
    }

    /// The weapon in hand, if exactly one is. A player with no weapon in
    /// hand, or with several at once, has none to reload, aim or fire.
    pub open spec fn in_hand(self) -> Option<int> {
        if exists|i: int| self.holds_alone(i) {
            Some(choose|i: int| self.holds_alone(i))
        } else {
            None
        }
    }

    /// The player with weapon `i` replaced.
    pub open spec fn with_gun(self, i: int, weapon: Weapon) -> PlayerView {
        PlayerView { guns: self.guns.update(i, weapon), ..self }
    }

    /// The player after a switch command: the selection has moved one slot
    /// and is clamped to the belt, and every weapon is in hand and visible
    /// exactly if it hangs in the slot now selected.
    pub open spec fn switched(self, command: Switch) -> PlayerView {
        let selected = Belt(clamp_slot(self.belt.0 + command.step(), self.guns.len() as int) as i8);
        PlayerView {
            belt: selected,
            guns: self.guns.map_values(|weapon: Weapon| weapon.reconciled(selected)),
            ..self
        }
    }

    /// The player after the reload key: if it was pressed and a weapon is
    /// in hand, that weapon is reloaded.
    pub open spec fn reload_keyed(self, pressed: bool) -> PlayerView {
        match self.in_hand() {
            Some(i) => if pressed {
                self.with_gun(i, self.guns[i].reloaded())
            } else {
                self
            },
            None => self,
        }
    }

    /// What the reload key reports.
    pub open spec fn reload_signal(self, pressed: bool) -> Reload {
        match self.in_hand() {
            Some(i) => if pressed {
                self.guns[i].reload_signal()
            } else {
                Reload::Idle
            },
            None => Reload::Idle,
        }
    }

    /// The player after aiming: if the pointer's side is known and a
    /// weapon is in hand, the player and that weapon face the pointer.
    pub open spec fn aimed(self, pointer_left: Option<bool>) -> PlayerView {
        match (pointer_left, self.in_hand()) {
            (Some(left), Some(i)) => PlayerView {
                flip_x: left,
                guns: self.guns.update(i, self.guns[i].faced(left)),
                ..self
            },
            _ => self,
        }
    }

    /// The player after the trigger: if it was pulled and a weapon is in
    /// hand, that weapon has fired or reloaded.
    pub open spec fn triggered(self, pulled: bool) -> PlayerView {
        match self.in_hand() {
            Some(i) => if pulled {
                self.with_gun(i, self.guns[i].triggered())
            } else {
                self
            },
            None => self,
        }
    }

    /// What the trigger comes to.
    pub open spec fn shot(self, pulled: bool) -> Shot {
        match self.in_hand() {
            Some(i) => if pulled {
                self.guns[i].shot()
            } else {
                Shot::Held
            },
            None => Shot::Held,
        }
    }
}

/// The six-shooter a player starts with, in hand.
pub open spec fn starting_gun() -> Weapon {
    Weapon {
        gun: Gun(6, 6, BulletType::Basic),
        ammo: Ammo(36),
        belt: Belt(0),
        in_hand: true,
        is_visible: true,
        reach: 1,
        flip_x: false,
    }
}

/// The rocket launcher a player starts with, on the belt.
pub open spec fn starting_launcher() -> Weapon {
    Weapon {
        gun: Gun(1, 1, BulletType::Rocket),
        ammo: Ammo(10),
        belt: Belt(1),
        in_hand: false,
        is_visible: false,
        reach: 2,
        flip_x: false,
    }
}

/// A player as the game starts.
pub open spec fn starting_player() -> PlayerView {
    PlayerView {
        belt: Belt(0),
        controllable: Controllable { is_controllable: true },
        flip_x: false,
        guns: seq![starting_gun(), starting_launcher()],
    }
}

/// Makes the player with the fixed loadout: a six-shooter in hand and a
/// rocket launcher on the belt, facing right, under control.
pub fn spawn_player_with_guns() -> (player: Player)
    ensures
        player@ == starting_player(),
        player@.wf(),
        player@.in_hand() == Some(0int),
{
    let gun = Weapon {
        gun: Gun(6, 6, BulletType::Basic),
        ammo: Ammo(36),
        belt: Belt(0),
        in_hand: true,
        is_visible: true,
        reach: 1,
        flip_x: false,
    };
    let rocket = Weapon {
        gun: Gun(1, 1, BulletType::Rocket),
        ammo: Ammo(10),
        belt: Belt(1),
        in_hand: false,
        is_visible: false,
        reach: 2,
        flip_x: false,
    };
    let mut guns: Vec<Weapon> = Vec::new();
    guns.push(gun);
    guns.push(rocket);
    let player = Player {
        belt: Belt(0),
        controllable: Controllable { is_controllable: true },
        flip_x: false,
        guns,
    };
    proof {
        assert(player@.guns =~= starting_player().guns);
        lemma_sole_holder(player@, 0);
    }
    player
}

/// Finds the weapon in hand. There is one only if exactly one weapon is
/// marked so.
pub fn gun_in_hand(player: &Player) -> (found: Option<usize>)
    ensures
        match found {
            Some(i) => player@.in_hand() == Some(i as int),
            None => player@.in_hand() is None,
        },
{
    let mut found: Option<usize> = None;
    let mut i: usize = 0;
    while i < player.guns.len()
        invariant
            i <= player.guns.len(),
            match found {
                Some(k) => k < i && player.guns@[k as int].in_hand,
                None => true,
            },
            forall|j: int|
                0 <= j < i && (#[trigger] player.guns@[j]).in_hand ==> found == Some(j as usize),
        decreases player.guns.len() - i,
    {
        if player.guns[i].in_hand {
            match found {
                Some(k) => {
                    assert forall|c: int| !player@.holds_alone(c) by {
                        if player@.holds_alone(c) {
                            assert(player@.guns[k as int].in_hand);
                            assert(player@.guns[i as int].in_hand);
                        }
                    }
                    return None;
                },
                None => {
                    found = Some(i);
                },
            }
        }
        i = i + 1;
    }
    proof {
        match found {
            Some(k) => {
                assert(player@.holds_alone(k as int));
                lemma_sole_holder(player@, k as int);
            },
            None => {
                assert forall|c: int| !player@.holds_alone(c) by {
                    if player@.holds_alone(c) {
                        assert(player@.guns[c].in_hand);
                    }
                }
            },
        }
    }
    found
}

/// Moves the selection as `command` asks and brings every weapon in line
/// with it. The weapons are brought in line on every call, also when the
/// command is to stay, so a weapon that was marked or shown out of turn is
/// put right.
pub fn change_gun(command: Switch, player: &mut Player)
    ensures
        final(player)@ == old(player)@.switched(command),
        1 <= old(player).guns.len() <= 128 ==> final(player).belt.in_range(
            old(player).guns.len() as int,
        ),
{
    player.belt.switch(command, player.guns.len());
    let selected: Belt = player.belt;
    let mut i: usize = 0;
    while i < player.guns.len()
        invariant
            i <= player.guns.len(),
            player.belt == selected,
            player.controllable == old(player).controllable,
            player.flip_x == old(player).flip_x,
            player.guns.len() == old(player).guns.len(),
            forall|j: int|
                0 <= j < i ==> #[trigger] player.guns@[j] == old(player).guns@[j].reconciled(
                    selected,
                ),
            forall|j: int| i <= j < player.guns.len() ==> #[trigger] player.guns@[j] == old(player).guns@[j],
        decreases player.guns.len() - i,
    {
        let mut weapon: Weapon = player.guns[i];
        let selects: bool = weapon.belt.0 == selected.0;
        weapon.in_hand = selects;
        weapon.is_visible = selects;
        player.guns.set(i, weapon);
        i = i + 1;
    }
    assert(player@.guns =~= old(player)@.switched(command).guns);
}

/// The reload key. If it was pressed and a weapon is in hand, the weapon
/// is reloaded from its reserve; with an empty reserve nothing moves and
/// the signal says so.
pub fn manual_reload(pressed: bool, player: &mut Player) -> (signal: Reload)
    ensures
        final(player)@ == old(player)@.reload_keyed(pressed),
        signal == old(player)@.reload_signal(pressed),
        old(player)@.wf() ==> final(player)@.wf(),
{
    if !pressed {
        return Reload::Idle;
    }
    match gun_in_hand(player) {
        Some(i) => {
            let mut weapon: Weapon = player.guns[i];
            let signal = weapon.reload();
            player.guns.set(i, weapon);
            signal
        },
        None => Reload::Idle,
    }
}

/// Aiming. `pointer_left` says whether the pointer is left of the
/// screen's centre, or is `None` when no pointer position is known. With a
/// pointer and a weapon in hand, the player and the weapon turn to face
/// the pointer, so the weapon stays in front of the player.
pub fn move_gun(pointer_left: Option<bool>, player: &mut Player)
    ensures
        final(player)@ == old(player)@.aimed(pointer_left),
        old(player)@.wf() ==> final(player)@.wf(),
{
    let left: bool = match pointer_left {
        Some(left) => left,
        None => {
            return ;
        },
    };
    match gun_in_hand(player) {
        Some(i) => {
            let mut weapon: Weapon = player.guns[i];
            weapon.flip_x = left;
            player.guns.set(i, weapon);
            player.flip_x = left;
        },
        None => {},
    }
}

/// The trigger. If it was pulled and a weapon is in hand, the weapon
/// fires, or reloads if its magazine is empty.
pub fn shoot(pulled: bool, player: &mut Player) -> (shot: Shot)
    ensures
        final(player)@ == old(player)@.triggered(pulled),
        shot == old(player)@.shot(pulled),
        old(player)@.wf() ==> final(player)@.wf(),
{
    if !pulled {
        return Shot::Held;
    }
    match gun_in_hand(player) {
        Some(i) => {
            let mut weapon: Weapon = player.guns[i];
            let shot = weapon.pull_trigger();
            player.guns.set(i, weapon);
            shot
        },
        None => Shot::Held,
    }
}

/// A reload creates no round and loses none: what leaves the reserve
/// arrives in the magazine. A magazine that was within its size stays so.
pub proof fn lemma_reload_conserves_rounds(weapon: Weapon)
    ensures
        weapon.reloaded().gun.0 + weapon.reloaded().ammo.0 == weapon.gun.0 + weapon.ammo.0,
        weapon.reloaded().ammo.0 <= weapon.ammo.0,
        weapon.reloaded().gun.0 >= weapon.gun.0,
        weapon.wf() ==> weapon.reloaded().gun.0 <= weapon.gun.1,
{
}

/// A reload with nothing to move changes nothing: with an empty reserve,
/// and with a magazine that is already full.
pub proof fn lemma_idle_reload_changes_nothing(weapon: Weapon)
    requires
        weapon.ammo.0 == 0 || weapon.gun.0 >= weapon.gun.1,
    ensures
        weapon.reloaded() == weapon,
{
}

/// After one reload a second one finds nothing to do: the magazine is
/// full or the reserve is empty.
pub proof fn lemma_second_reload_changes_nothing(weapon: Weapon)
    ensures
        weapon.reloaded().reloaded() == weapon.reloaded(),
{
}

/// A pull of the trigger on an empty magazine spawns no projectile. It is
/// a reload and nothing else, and it is reported as one exactly if the
/// reserve had rounds to give.
pub proof fn lemma_empty_magazine_never_fires(weapon: Weapon)
    requires
        weapon.gun.0 == 0,
    ensures
        !(weapon.shot() is Fired),
        weapon.triggered() == weapon.reloaded(),
        weapon.shot() is Reloaded <==> weapon.ammo.0 > 0,
{
}

/// A pull of the trigger on a loaded magazine spends exactly one round
/// and touches nothing else; the projectile carries the weapon's drive
/// and the gun's type.
pub proof fn lemma_loaded_magazine_fires(weapon: Weapon)
    requires
        weapon.gun.0 > 0,
    ensures
        weapon.shot() == Shot::Fired(weapon.bullet()),
        weapon.triggered().gun.0 == weapon.gun.0 - 1,
        weapon.triggered().ammo == weapon.ammo,
        weapon.bullet().2 == 0,
        weapon.bullet().1 == weapon.gun.2,
        weapon.bullet().0 == weapon.drive(),
{
}

/// Bringing the weapons in line with the selection is idempotent: once
/// done, doing it again without moving the selection changes nothing.
/// Afterwards a weapon is in hand, and visible, exactly if it hangs in the
/// slot selected.
pub proof fn lemma_staying_settles(player: PlayerView, command: Switch)
    requires
        player.guns.len() >= 1,
    ensures
        player.switched(command).switched(Switch::Stay) == player.switched(command),
        forall|i: int|
            0 <= i < player.guns.len() ==> {
                let weapon = #[trigger] player.switched(command).guns[i];
                &&& weapon.in_hand == (weapon.belt == player.switched(command).belt)
                &&& weapon.is_visible == weapon.in_hand
            },
{
    let once = player.switched(command);
    let twice = once.switched(Switch::Stay);
    assert(twice.guns =~= once.guns);
}

/// No phase of the belt ever leaves the selection off the belt: with at
/// least one weapon, and no more than a belt can count, the slot selected
/// after a switch is the index of a weapon.
pub proof fn lemma_selection_stays_on_belt(player: PlayerView, command: Switch)
    requires
        1 <= player.guns.len() <= 128,
    ensures
        player.switched(command).belt.in_range(player.guns.len() as int),
        player.switched(command).guns.len() == player.guns.len(),
{
}

/// With an empty magazine in hand, the trigger spawns nothing and does to
/// the player exactly what the reload key does.
pub proof fn lemma_empty_in_hand_never_fires(player: PlayerView, i: int)
    requires
        player.in_hand() == Some(i),
        player.guns[i].gun.0 == 0,
    ensures
        !(player.shot(true) is Fired),
        player.triggered(true) == player.reload_keyed(true),
{
}

/// If weapon `i` is in hand and no other is, it is the weapon in hand.
pub proof fn lemma_sole_holder(player: PlayerView, i: int)
    requires
        player.holds_alone(i),
    ensures
        player.in_hand() == Some(i),
{
    let chosen = choose|c: int| player.holds_alone(c);
    assert(player.holds_alone(chosen));
    assert(player.guns[i].in_hand);
}

} // verus!
