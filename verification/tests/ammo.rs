use la_kill_em::entity::gun::{Ammo, BulletType, Gun};
use la_kill_em::entity::player::{Reload, Shot, Weapon};
use la_kill_em::entity::belt::Belt;
use la_kill_em::entity::bullet::Bullet;

fn weapon(loaded: u32, size: u32, reserve: u32) -> Weapon {
    Weapon {
        gun: Gun(loaded, size, BulletType::Basic),
        ammo: Ammo(reserve),
        belt: Belt(0),
        in_hand: true,
        is_visible: true,
        reach: 1,
        flip_x: false,
    }
}

#[test]
fn reload_fills_an_empty_magazine_from_the_reserve() {
    let mut gun = Gun(0, 6, BulletType::Basic);
    let mut ammo = Ammo(36);
    gun.reload(&mut ammo);
    assert_eq!(gun, Gun(6, 6, BulletType::Basic));
    assert_eq!(ammo, Ammo(30));
}

#[test]
fn reload_of_a_full_magazine_moves_nothing() {
    let mut gun = Gun(6, 6, BulletType::Basic);
    let mut ammo = Ammo(30);
    gun.reload(&mut ammo);
    assert_eq!(gun.0, 6);
    assert_eq!(ammo.0, 30);
}

#[test]
fn six_magazines_empty_the_reserve_and_then_reloads_do_nothing() {
    let mut w = weapon(0, 6, 36);
    assert_eq!(w.reload(), Reload::Loaded);
    assert_eq!((w.gun.0, w.ammo.0), (6, 30));
    let mut expected_reserve = 30;
    for _ in 0..5 {
        for _ in 0..6 {
            assert!(matches!(w.pull_trigger(), Shot::Fired(_)));
        }
        assert_eq!(w.gun.0, 0);
        assert_eq!(w.reload(), Reload::Loaded);
        expected_reserve -= 6;
        assert_eq!((w.gun.0, w.ammo.0), (6, expected_reserve));
    }
    assert_eq!((w.gun.0, w.ammo.0), (6, 0));
    for _ in 0..3 {
        assert_eq!(w.reload(), Reload::Dry);
        assert_eq!((w.gun.0, w.ammo.0), (6, 0));
    }
}

#[test]
fn reload_tops_up_a_half_empty_magazine() {
    let mut gun = Gun(2, 6, BulletType::Rocket);
    let mut ammo = Ammo(36);
    gun.reload(&mut ammo);
    assert_eq!(gun, Gun(6, 6, BulletType::Rocket));
    assert_eq!(ammo.0, 32);
}

#[test]
fn reload_with_a_short_reserve_moves_what_is_left() {
    let mut gun = Gun(2, 6, BulletType::Basic);
    let mut ammo = Ammo(3);
    gun.reload(&mut ammo);
    assert_eq!(gun.0, 5);
    assert_eq!(gun.1, 6);
    assert_eq!(ammo.0, 0);
}

#[test]
fn reload_conserves_rounds_over_a_grid_of_states() {
    for size in 0..8u32 {
        for loaded in 0..=size {
            for reserve in 0..20u32 {
                let mut gun = Gun(loaded, size, BulletType::Basic);
                let mut ammo = Ammo(reserve);
                gun.reload(&mut ammo);
                assert_eq!(gun.0 + ammo.0, loaded + reserve);
                assert!(gun.0 <= size);
                assert!(gun.0 == size || ammo.0 == 0);
                assert_eq!(gun.1, size);
            }
        }
    }
}

#[test]
fn reload_at_the_top_of_the_counters_does_not_overflow() {
    let mut gun = Gun(0, u32::MAX, BulletType::Basic);
    let mut ammo = Ammo(u32::MAX);
    gun.reload(&mut ammo);
    assert_eq!(gun.0, u32::MAX);
    assert_eq!(ammo.0, 0);
}

#[test]
fn reload_leaves_an_overfull_magazine_alone() {
    let mut gun = Gun(9, 6, BulletType::Basic);
    let mut ammo = Ammo(5);
    gun.reload(&mut ammo);
    assert_eq!(gun.0, 9);
    assert_eq!(ammo.0, 5);
}

#[test]
fn remove_takes_rounds_out_of_the_reserve() {
    let mut ammo = Ammo(10);
    ammo.remove(3);
    assert_eq!(ammo.0, 7);
    ammo.remove(0);
    assert_eq!(ammo.0, 7);
}

#[test]
fn remove_stops_at_an_empty_reserve() {
    let mut ammo = Ammo(7);
    ammo.remove(20);
    assert_eq!(ammo.0, 0);
    ammo.remove(1);
    assert_eq!(ammo.0, 0);
}

#[test]
fn weapon_reload_reports_a_dry_reserve_and_changes_nothing() {
    let mut w = weapon(2, 6, 0);
    assert_eq!(w.reload(), Reload::Dry);
    assert_eq!(w, weapon(2, 6, 0));
}

#[test]
fn weapon_reload_reports_loaded_even_when_the_magazine_was_full() {
    let mut w = weapon(6, 6, 12);
    assert_eq!(w.reload(), Reload::Loaded);
    assert_eq!(w, weapon(6, 6, 12));
}

#[test]
fn trigger_spends_one_round_and_hands_out_the_projectile() {
    let mut w = weapon(6, 6, 36);
    assert_eq!(w.pull_trigger(), Shot::Fired(Bullet(1, BulletType::Basic, 0)));
    assert_eq!(w, weapon(5, 6, 36));
}

#[test]
fn trigger_on_an_empty_magazine_reloads_and_spawns_nothing() {
    let mut w = weapon(0, 6, 36);
    assert_eq!(w.pull_trigger(), Shot::Reloaded);
    assert_eq!(w, weapon(6, 6, 30));
}

#[test]
fn trigger_on_an_empty_magazine_and_reserve_only_clicks() {
    let mut w = weapon(0, 6, 0);
    assert_eq!(w.pull_trigger(), Shot::Dry);
    assert_eq!(w, weapon(0, 6, 0));
}

#[test]
fn trigger_never_fires_from_an_empty_magazine_whatever_the_reserve() {
    for reserve in 0..40u32 {
        for size in 0..8u32 {
            let mut w = weapon(0, size, reserve);
            let before = w;
            let shot = w.pull_trigger();
            assert!(!matches!(shot, Shot::Fired(_)));
            let mut reloaded = before;
            reloaded.reload();
            assert_eq!(w, reloaded);
        }
    }
}

#[test]
fn a_mirrored_weapon_fires_with_negative_drive() {
    let mut w = weapon(3, 6, 0);
    w.flip_x = true;
    w.reach = 2;
    assert_eq!(w.pull_trigger(), Shot::Fired(Bullet(-2, BulletType::Basic, 0)));
    assert_eq!(w.gun.0, 2);
}

#[test]
fn the_longest_reach_fits_the_drive() {
    let mut w = weapon(2, 6, 0);
    w.reach = u8::MAX;
    assert_eq!(w.pull_trigger(), Shot::Fired(Bullet(255, BulletType::Basic, 0)));
    w.flip_x = true;
    assert_eq!(w.pull_trigger(), Shot::Fired(Bullet(-255, BulletType::Basic, 0)));
}
