//! One tick of the simulation: the phases in their fixed order.

use vstd::prelude::*;
use crate::entity::belt::Switch;
use crate::entity::player::{change_gun, manual_reload, move_gun, shoot, Player, PlayerView, Reload, Shot};
use crate::entity::{control_player, HeldKeys, Steering};
use crate::ui::{magazine_text, reserve_text, update_ui, AmmoText};

verus! {

/// What the input devices show in one tick. It is sampled once and every
/// phase reads the same sample.
#[derive(Clone, Copy, Debug, PartialEq, Eq, Structural)]
pub struct Input {
    /// The movement keys held down.
    pub keys: HeldKeys,
    /// The "next weapon" key went down this tick.
    pub switch_next: bool,
    /// The "previous weapon" key went down this tick.
    pub switch_previous: bool,
    /// The reload key went down this tick.
    pub reload: bool,
    /// The trigger went down this tick.
    pub fire: bool,
    /// Whether the pointer is left of the screen's centre; `None` when it
    /// has not moved or there is no screen to measure against.
    pub pointer_left: Option<bool>,
}

/// What one tick asks of the world outside: how to drive the velocity,
/// which cues to give, what to spawn, and what to show.
#[derive(Clone, Debug)]
pub struct Report {
    pub steering: Option<Steering>,
    pub reload: Reload,
    pub shot: Shot,
    pub text: Option<AmmoText>,
}

impl Input {
    /// The switch command the keys give.
    pub open spec fn command(self) -> Switch {
        Switch::of(self.switch_next, self.switch_previous)
    }

    /// The player after the switch phase.
    pub open spec fn after_switch(self, player: PlayerView) -> PlayerView {
        player.switched(self.command())
    }

    /// The player after switch and reload.
    pub open spec fn after_reload(self, player: PlayerView) -> PlayerView {
        self.after_switch(player).reload_keyed(self.reload)
    }

    /// The player after switch, reload and aim.
    pub open spec fn after_aim(self, player: PlayerView) -> PlayerView {
        self.after_reload(player).aimed(self.pointer_left)
    }

    /// The player after the whole tick: switch, reload, aim, fire.
    pub open spec fn after_tick(self, player: PlayerView) -> PlayerView {
        self.after_aim(player).triggered(self.fire)
    }
}

/// Runs one tick on the player. The phases come in a fixed order: the
/// movement keys are read; the belt is switched; the reload key is served;
/// the weapon in hand is aimed; the trigger is served; and last the
/// read-out is made, so it shows the counts as this tick's shot left them.
/// A switch thus takes effect before the trigger looks for the weapon in
/// hand. A projectile that is fired is handed out in the report and flies
/// its first step on the next tick.
pub fn tick(input: &Input, player: &mut Player) -> (report: Report)
    ensures
        final(player)@ == input.after_tick(old(player)@),
        report.steering == if old(player).controllable.is_controllable {
            Some(input.keys.steering())
        } else {
            None
        },
        report.reload == input.after_switch(old(player)@).reload_signal(input.reload),
        report.shot == input.after_aim(old(player)@).shot(input.fire),
        match final(player)@.in_hand() {
            Some(i) => report.text matches Some(shown) && shown.magazine@ == magazine_text(
                final(player)@.guns[i].gun,
            ) && shown.reserve@ == reserve_text(final(player)@.guns[i].ammo),
            None => report.text is None,
        },
        old(player)@.wf() ==> final(player)@.wf(),
        1 <= old(player).guns.len() <= 128 ==> final(player).belt.in_range(
            old(player).guns.len() as int,
        ),
{
    let steering = control_player(&player.controllable, &input.keys);
    change_gun(Switch::from_keys(input.switch_next, input.switch_previous), player);
    let reload = manual_reload(input.reload, player);
    move_gun(input.pointer_left, player);
    let shot = shoot(input.fire, player);
    let text = update_ui(player);
    Report { steering, reload, shot, text }
}

/// A tick never adds a round to a weapon and never moves one out of the
/// magazine back into the reserve. A weapon ends the tick with the rounds
/// it had, or with one less; it has one less exactly if it was the weapon
/// in hand when the trigger was served, the trigger was pulled, and its
/// magazine was not empty. Magazine size and type of ordnance never change.
pub proof fn lemma_tick_spends_at_most_one_round(input: Input, player: PlayerView, i: int)
    requires
        0 <= i < player.guns.len(),
    ensures
        input.after_tick(player).guns.len() == player.guns.len(),
        input.after_tick(player).guns[i].rounds() == player.guns[i].rounds() - if input.fire
            && input.after_aim(player).in_hand() == Some(i) && input.after_aim(
            player,
        ).guns[i].gun.0 > 0 {
            1int
        } else {
            0int
        },
        input.after_tick(player).guns[i].ammo.0 <= player.guns[i].ammo.0,
        input.after_tick(player).guns[i].gun.1 == player.guns[i].gun.1,
        input.after_tick(player).guns[i].gun.2 == player.guns[i].gun.2,
        input.after_tick(player).guns[i].belt == player.guns[i].belt,
        input.after_tick(player).guns[i].reach == player.guns[i].reach,
{
}

/// After a tick the marks are in line with the belt: a weapon is in hand
/// exactly if it hangs in the slot selected, whatever the marks were
/// before and whatever the keys did.
pub proof fn lemma_tick_leaves_marks_in_line(input: Input, player: PlayerView, i: int)
    requires
        0 <= i < player.guns.len(),
    ensures
        input.after_tick(player).guns[i].in_hand == (input.after_tick(player).guns[i].belt
            == input.after_tick(player).belt),
        input.after_tick(player).guns[i].is_visible == input.after_tick(player).guns[i].in_hand,
        input.after_tick(player).belt == input.after_switch(player).belt,
{
}

} // verus!
